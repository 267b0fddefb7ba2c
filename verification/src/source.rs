//! Source units and the input adapter: raw fuzz bytes become an ordered
//! set of named source texts, or an empty set when the bytes are not text.

use vstd::prelude::*;
use vstd::slice::slice_to_vec;
use vstd::utf8::valid_utf8;
use crate::encoding::is_valid_utf8_bytes;

verus! {

/// One named source text. The text is kept as its UTF-8 bytes.
#[derive(Clone, Debug)]
pub struct SourceUnit {
    pub name: String,
    pub text: Vec<u8>,
}

impl SourceUnit {
    pub open spec fn wf(self) -> bool {
        valid_utf8(self.text@)
    }
}

/// An ordered mapping from unit names to source texts. Names are unique and
/// insertion order is preserved, so a given buffer always produces the same
/// request document.
#[derive(Clone, Debug)]
pub struct SourceSet {
    pub units: Vec<SourceUnit>,
}

impl SourceSet {
    pub open spec fn wf(self) -> bool {
        &&& forall|i: int, j: int|
            0 <= i < j < self.units@.len() ==> self.units@[i].name@ != self.units@[j].name@
        &&& forall|i: int| 0 <= i < self.units@.len() ==> (#[trigger] self.units@[i]).wf()
    }

    pub open spec fn spec_contains_name(self, name: Seq<char>) -> bool {
        exists|i: int| 0 <= i < self.units@.len() && (#[trigger] self.units@[i]).name@ == name
    }

    /// The empty source set.
    pub fn empty() -> (r: SourceSet)
        ensures
            r.units@.len() == 0,
            r.wf(),
    {
        SourceSet { units: Vec::new() }
    }

    pub fn unit_count(&self) -> (n: usize)
        ensures
            n == self.units@.len(),
    {
        self.units.len()
    }

    pub fn is_empty(&self) -> (r: bool)
        ensures
            r == (self.units@.len() == 0),
    {
        self.units.len() == 0
    }

    /// Whether some unit already carries the given name.
    pub fn contains_name(&self, name: &String) -> (r: bool)
        ensures
            r == self.spec_contains_name(name@),
    {
        let n = self.units.len();
        let mut i: usize = 0;
        while i < n
            invariant
                i <= n,
                n == self.units@.len(),
                forall|k: int| 0 <= k < i ==> (#[trigger] self.units@[k]).name@ != name@,
            decreases n - i,
        {
            if self.units[i].name.eq(name) {
                return true;
            }
            i = i + 1;
        }
        false
    }

    /// Appends a unit under a fresh name, preserving order and uniqueness.
    pub fn push_unit(&mut self, name: String, text: Vec<u8>)
        requires
            old(self).wf(),
            !old(self).spec_contains_name(name@),
            valid_utf8(text@),
        ensures
            final(self).wf(),
            final(self).units@ == old(self).units@.push(
                SourceUnit { name: name, text: text },
            ),
    {
        self.units.push(SourceUnit { name, text });
    }
}

/// Conventional name under which a delivered buffer is filed.
pub open spec fn default_source_name() -> Seq<char> {
    "main.sol"@
}

/// The input adapter: any byte buffer becomes a source set.
///
/// A buffer that decodes as valid UTF-8 yields exactly one unit under the
/// conventional name; any other buffer yields the empty set, so the pipeline
/// can still run and terminate gracefully downstream. This never fails.
pub fn adapt(data: &Vec<u8>) -> (r: SourceSet)
    ensures
        r.wf(),
        valid_utf8(data@) ==> r.units@.len() == 1 && r.units@[0].name@ == default_source_name()
            && r.units@[0].text@ == data@,
        !valid_utf8(data@) ==> r.units@.len() == 0,
{
    let mut set = SourceSet::empty();
    if is_valid_utf8_bytes(data) {
        let text = slice_to_vec(data.as_slice());
        set.push_unit("main.sol".to_owned(), text);
    }
    set
}

} // verus!
