//! Values that can name their own type to outside systems.
use vstd::prelude::*;
use crate::pod::Pod;

verus! {

/// A value that describes itself by the name of its type (for an enum, the
/// type and the variant: `AnEnum::Variant`).
pub trait Kind {
    fn kind(&self) -> String;
}

impl Kind for String {
    fn kind(&self) -> String {
        String::from_str("String")
    }
}

impl Kind for Pod {
    fn kind(&self) -> String {
        String::from_str("Pod")
    }
}

impl Kind for u64 {
    fn kind(&self) -> String {
        String::from_str("u64")
    }
}

impl Kind for i64 {
    fn kind(&self) -> String {
        String::from_str("i64")
    }
}

impl<T: Kind> Kind for Vec<T> {
    /// `List[]` when empty, else `List[<kind of the first item>]`.
    fn kind(&self) -> String {
        if self.len() == 0 {
            String::from_str("List[]")
        } else {
            let mut out = String::from_str("List[");
            let inner = self[0].kind();
            out.append(inner.as_str());
            out.append("]");
            out
        }
    }
}

} // verus!
