//! Classification of strings.

use crate::classify::{Classification, Classify};
use vstd::prelude::*;

verus! {

/// The classes of a string.
#[derive(Debug, Copy, Clone, PartialEq, Hash, Structural)]
pub enum StringClassification {
    /// An empty string
    Empty,
    /// A string containing only whitespace characters
    Whitespace,
    /// A non-empty string containing at least one non-whitespace character
    NonEmpty,
}

/// Whether `c` is whitespace as Unicode defines it (White_Space), which is
/// what `char::is_whitespace` reports.
pub uninterp spec fn is_white_space(c: char) -> bool;

/// `char::is_whitespace` of std. Believed, not proved: the result says
/// whether the character is White_Space, and depends on the character alone.
pub assume_specification[ char::is_whitespace ](c: char) -> (b: bool)
    ensures
        b == is_white_space(c),
;

/// For each character of `s`, whether it is whitespace.
pub open spec fn white_space_marks(s: Seq<char>) -> Seq<bool> {
    s.map_values(|c: char| is_white_space(c))
}

/// Whether every mark is set.
pub open spec fn all_set(marks: Seq<bool>) -> bool {
    forall|i: int| 0 <= i < marks.len() ==> #[trigger] marks[i]
}

/// The class of a string, given for each of its characters whether it is
/// whitespace.
pub open spec fn marks_class(marks: Seq<bool>) -> StringClassification {
    if marks.len() == 0 {
        StringClassification::Empty
    } else if all_set(marks) {
        StringClassification::Whitespace
    } else {
        StringClassification::NonEmpty
    }
}

/// The class of the string whose characters are `s`: empty, all whitespace,
/// or neither.
pub open spec fn string_class(s: Seq<char>) -> StringClassification {
    marks_class(white_space_marks(s))
}

/// Classifies a string from the marks of its characters: one for each, set
/// where the character is whitespace.
pub fn classify_marks(marks: &Vec<bool>) -> (c: StringClassification)
    ensures
        c == marks_class(marks@),
{
    if marks.len() == 0 {
        return StringClassification::Empty;
    }
    let mut i: usize = 0;
    while i < marks.len()
        invariant
            i <= marks.len(),
            all_set(marks@.take(i as int)),
        decreases marks.len() - i,
    {
        if !marks[i] {
            return StringClassification::NonEmpty;
        }
        proof {
            let longer = marks@.take(i + 1);
            assert forall|k: int| 0 <= k < longer.len() implies #[trigger] longer[k] by {
                if k < i {
                    assert(marks@.take(i as int)[k]);
                }
            }
        }
        i = i + 1;
    }
    assert(marks@.take(i as int) =~= marks@);
    StringClassification::Whitespace
}

/// Classifies a string slice.
pub fn classify_str(s: &str) -> (c: StringClassification)
    ensures
        c == string_class(s@),
{
    let mut marks: Vec<bool> = Vec::new();
    for c in it: s.chars()
        invariant
            it.seq() == s@,
            marks@ == white_space_marks(s@.take(it.index() as int)),
    {
        marks.push(c.is_whitespace());
        proof {
            let k = it.index() as int;
            assert(s@.take(k + 1) =~= s@.take(k).push(c));
            assert(marks@ =~= white_space_marks(s@.take(k + 1)));
        }
    }
    assert(s@.take(s@.len() as int) =~= s@);
    classify_marks(&marks)
}

impl StringClassification {
    /// The position of the class among the three.
    pub open spec fn index(&self) -> u64 {
        match self {
            StringClassification::Empty => 0,
            StringClassification::Whitespace => 1,
            StringClassification::NonEmpty => 2,
        }
    }
}

impl Classification for StringClassification {
    open spec fn encoding(&self) -> Seq<u64> {
        seq![self.index()]
    }

    fn encode(&self, out: &mut Vec<u64>) {
        let word: u64 = match self {
            StringClassification::Empty => 0,
            StringClassification::Whitespace => 1,
            StringClassification::NonEmpty => 2,
        };
        out.push(word);
    }

    proof fn lemma_prefix_free(&self, other: &Self) {
        assert(self.encoding()[0] == other.encoding()[0]);
    }
}

impl Classify for String {
    type Output = StringClassification;

    open spec fn spec_classify(&self) -> StringClassification {
        string_class(self@)
    }

    fn classify(&self) -> StringClassification {
        classify_str(self.as_str())
    }
}

impl Classify for &str {
    type Output = StringClassification;

    open spec fn spec_classify(&self) -> StringClassification {
        string_class(self@)
    }

    fn classify(&self) -> StringClassification {
        classify_str(*self)
    }
}

} // verus!
