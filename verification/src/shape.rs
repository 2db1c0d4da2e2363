//! The type-shape matcher: whether a declared type is, by its syntax alone,
//! the optional-value wrapper around one type.
//!
//! The matcher sees syntax, not types. An alias of `Option` under another name
//! does not match, and any type that is written `Option<T>` does, whatever the
//! name stands for where it is written.

use vstd::prelude::*;
use crate::syntax::{GenericArgument, Path, PathArguments, Type, same_str};

verus! {

/// Whether a path is one of the spellings of the wrapper's name: `Option`
/// alone, without a leading `::`, or `std::option::Option` or
/// `core::option::Option`, with or without one.
pub open spec fn names_option(path: Path) -> bool {
    ||| !path.leading_colon && path.idents() == seq!["Option"@]
    ||| path.idents() == seq!["std"@, "option"@, "Option"@]
    ||| path.idents() == seq!["core"@, "option"@, "Option"@]
}

/// The type between the angle brackets, where the arguments are exactly one
/// type.
pub open spec fn single_type_argument(arguments: PathArguments) -> Option<Type> {
    match arguments {
        PathArguments::AngleBracketed(args) => if args@.len() == 1 {
            match args@[0] {
                GenericArgument::Type(ty) => Some(ty),
                GenericArgument::Other(_) => None,
            }
        } else {
            None
        },
        _ => None,
    }
}

/// The `T` of a path that reads `Option<T>`.
pub open spec fn path_option_argument(path: Path) -> Option<Type> {
    if names_option(path) {
        single_type_argument(path.segments@.last().arguments)
    } else {
        None
    }
}

/// The `T` of a type that reads `Option<T>`, looking through groups, round
/// brackets and qualified self types; `None` for every other type.
pub open spec fn option_argument(ty: Type) -> Option<Type>
    decreases ty,
{
    match ty {
        Type::Group(elem) => option_argument(*elem),
        Type::Paren(elem) => option_argument(*elem),
        Type::Path(type_path) => match type_path.qself {
            Some(elem) => option_argument(*elem),
            None => path_option_argument(type_path.path),
        },
        Type::Other(_) => None,
    }
}

/// Whether the path spells the wrapper's name.
fn path_names_option(path: &Path) -> (r: bool)
    ensures
        r == names_option(*path),
{
    let segments = &path.segments;
    let ghost ids = path.idents();
    assert(ids.len() == segments@.len());
    if segments.len() == 1 {
        let r = !path.leading_colon && same_str(segments[0].ident.as_str(), "Option");
        proof {
            let bare = seq!["Option"@];
            assert(bare.len() == 1 && bare[0] == "Option"@);
            assert(r == (!path.leading_colon && ids =~= bare));
        }
        r
    } else if segments.len() == 3 {
        let root = same_str(segments[0].ident.as_str(), "std") || same_str(
            segments[0].ident.as_str(),
            "core",
        );
        let r = root && same_str(segments[1].ident.as_str(), "option") && same_str(
            segments[2].ident.as_str(),
            "Option",
        );
        proof {
            let in_std = seq!["std"@, "option"@, "Option"@];
            let in_core = seq!["core"@, "option"@, "Option"@];
            assert(r == (ids =~= in_std || ids =~= in_core));
        }
        r
    } else {
        false
    }
}

/// Returns the `T` of a type that reads `Option<T>`, and `None` for a type of
/// any other shape.
///
/// Accepted are `Option<T>`, `std::option::Option<T>` and
/// `core::option::Option<T>`, the last two with or without a leading `::`,
/// each with exactly one argument that is a type. Groups, round brackets and
/// qualified self types are looked through.
pub fn get_std_option(ty: &Type) -> (inner: Option<&Type>)
    ensures
        option_argument(*ty) == match inner {
            Some(found) => Some(*found),
            None => None,
        },
    decreases ty,
{
    match ty {
        Type::Group(elem) => get_std_option(elem),
        Type::Paren(elem) => get_std_option(elem),
        Type::Path(type_path) => match &type_path.qself {
            Some(elem) => get_std_option(elem),
            None => {
                if !path_names_option(&type_path.path) {
                    return None;
                }
                assert(type_path.path.segments@.len() == type_path.path.idents().len());
                let last = type_path.path.segments.len() - 1;
                match &type_path.path.segments[last].arguments {
                    PathArguments::AngleBracketed(args) => {
                        if args.len() == 1 {
                            match &args[0] {
                                GenericArgument::Type(found) => Some(found),
                                GenericArgument::Other(_) => None,
                            }
                        } else {
                            None
                        }
                    },
                    _ => None,
                }
            },
        },
        Type::Other(_) => None,
    }
}

} // verus!
