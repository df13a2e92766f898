use vstd::prelude::*;

verus! {

/// The window that the setup hook looks up.
pub open spec fn main_label() -> Seq<char> {
    seq!['m', 'a', 'i', 'n']
}

/// Whether a window with the given label is in the registry.
pub open spec fn has_window(windows: Seq<String>, label: Seq<char>) -> bool {
    exists|i: int| 0 <= i < windows.len() && #[trigger] windows[i]@ == label
}

/// No two windows share a label.
pub open spec fn labels_distinct(windows: Seq<String>) -> bool {
    forall|i: int, j: int|
        0 <= i < j < windows.len() ==> #[trigger] windows[i]@ != #[trigger] windows[j]@
}

/// The declarative configuration, as far as startup reads it: the labels of
/// the windows that the host creates, in declaration order.
#[derive(Clone, Debug)]
pub struct Context {
    pub windows: Vec<String>,
}

impl Context {
    pub open spec fn spec_is_valid(&self) -> bool {
        labels_distinct(self.windows@)
    }

    /// A configuration is well formed when every window label is unique:
    /// the window registry is keyed by label.
    pub fn is_valid(&self) -> (r: bool)
        ensures
            r == self.spec_is_valid(),
    {
        let n = self.windows.len();
        let mut i: usize = 0;
        while i < n
            invariant
                n == self.windows@.len(),
                i <= n,
                forall|a: int, b: int|
                    0 <= a < b < n && a < i ==> #[trigger] self.windows@[a]@
                        != #[trigger] self.windows@[b]@,
            decreases n - i,
        {
            let mut j: usize = i + 1;
            while j < n
                invariant
                    n == self.windows@.len(),
                    i < n,
                    i + 1 <= j <= n,
                    forall|a: int, b: int|
                        0 <= a < b < n && a < i ==> #[trigger] self.windows@[a]@
                            != #[trigger] self.windows@[b]@,
                    forall|b: int| i < b < j ==> self.windows@[i as int]@ != #[trigger] self.windows@[b]@,
                decreases n - j,
            {
                if self.windows[i] == self.windows[j] {
                    return false;
                }
                j = j + 1;
            }
            i = i + 1;
        }
        true
    }

    /// The position of the window with the given label, if the registry
    /// holds one.
    pub fn get_window(&self, label: &String) -> (r: Option<usize>)
        ensures
            r.is_none() <==> !has_window(self.windows@, label@),
            r matches Some(i) ==> i < self.windows@.len() && self.windows@[i as int]@ == label@,
    {
        let mut i: usize = 0;
        while i < self.windows.len()
            invariant
                i <= self.windows@.len(),
                forall|k: int| 0 <= k < i ==> #[trigger] self.windows@[k]@ != label@,
            decreases self.windows@.len() - i,
        {
            if self.windows[i] == *label {
                return Some(i);
            }
            i = i + 1;
        }
        None
    }
}

} // verus!
