//! The distinct speakers of a transcript, from its utterances' speaker tags.
use vstd::prelude::*;
use vstd::string::*;
use crate::text::{join, owned, same_text};
use crate::types::Speaker;

verus! {

/// No two entries share a text.
pub open spec fn no_repeats(v: Seq<String>) -> bool {
    forall|i: int, j: int| 0 <= i < j < v.len() ==> (#[trigger] v[i])@ != (#[trigger] v[j])@
}

/// `t` is the text of some entry of `v`.
pub open spec fn holds_text(v: Seq<String>, t: Seq<char>) -> bool {
    exists|i: int| 0 <= i < v.len() && (#[trigger] v[i])@ == t
}

/// The same texts occur in both.
pub open spec fn same_texts(a: Seq<String>, b: Seq<String>) -> bool {
    &&& forall|i: int| 0 <= i < a.len() ==> holds_text(b, (#[trigger] a[i])@)
    &&& forall|i: int| 0 <= i < b.len() ==> holds_text(a, (#[trigger] b[i])@)
}

fn contains_text(v: &Vec<String>, t: &String) -> (r: bool)
    ensures
        r == holds_text(v@, t@),
{
    let mut i: usize = 0;
    while i < v.len()
        invariant
            0 <= i <= v@.len(),
            forall|k: int| 0 <= k < i ==> (#[trigger] v@[k])@ != t@,
        decreases v@.len() - i,
    {
        if same_text(v[i].as_str(), t.as_str()) {
            return true;
        }
        i += 1;
    }
    false
}

/// The distinct tags, each once, in order of first appearance.
pub fn distinct_tags(tags: &Vec<String>) -> (r: Vec<String>)
    ensures
        no_repeats(r@),
        same_texts(r@, tags@),
{
    let mut out: Vec<String> = Vec::new();
    let mut i: usize = 0;
    while i < tags.len()
        invariant
            0 <= i <= tags@.len(),
            no_repeats(out@),
            forall|k: int| 0 <= k < out@.len() ==> holds_text(tags@, (#[trigger] out@[k])@),
            forall|k: int| 0 <= k < i ==> holds_text(out@, (#[trigger] tags@[k])@),
        decreases tags@.len() - i,
    {
        let t = &tags[i];
        if !contains_text(&out, t) {
            let ghost before = out@;
            out.push(t.clone());
            proof {
                assert(out@[before.len() as int] == tags@[i as int]);
                assert forall|k: int| 0 <= k < i + 1 implies holds_text(out@, (#[trigger] tags@[k])@) by {
                    if k < i {
                        let w = choose|w: int| 0 <= w < before.len() && (#[trigger] before[w])@ == tags@[k]@;
                        assert(out@[w] == before[w]);
                    } else {
                        assert(out@[before.len() as int]@ == tags@[k]@);
                    }
                }
                assert forall|k: int| 0 <= k < out@.len() implies holds_text(tags@, (#[trigger] out@[k])@) by {
                    if k < before.len() {
                        assert(out@[k] == before[k]);
                    } else {
                        assert(tags@[i as int]@ == out@[k]@);
                    }
                }
            }
        } else {
            proof {
                assert forall|k: int| 0 <= k < i + 1 implies holds_text(out@, (#[trigger] tags@[k])@) by {
                    if k == i {
                        assert(holds_text(out@, t@));
                    }
                }
            }
        }
        i += 1;
    }
    out
}

/// The label of a speaker id.
pub open spec fn speaker_label(id: Seq<char>) -> Seq<char> {
    "Speaker "@ + id
}

/// One speaker per id, labelled `Speaker <id>`, in the same order.
pub fn labelled_speakers(ids: Vec<String>) -> (r: Vec<Speaker>)
    ensures
        r@.len() == ids@.len(),
        forall|i: int| 0 <= i < r@.len() ==> {
            &&& (#[trigger] r@[i]).id == ids@[i]
            &&& r@[i].label is Some
            &&& r@[i].label->0@ == speaker_label(ids@[i]@)
            &&& r@[i].confidence is None
        },
{
    let mut out: Vec<Speaker> = Vec::new();
    let mut i: usize = 0;
    while i < ids.len()
        invariant
            0 <= i <= ids@.len(),
            out@.len() == i,
            forall|k: int| 0 <= k < i ==> {
                &&& (#[trigger] out@[k]).id == ids@[k]
                &&& out@[k].label is Some
                &&& out@[k].label->0@ == speaker_label(ids@[k]@)
                &&& out@[k].confidence is None
            },
        decreases ids@.len() - i,
    {
        let id = ids[i].clone();
        let label = join(owned("Speaker "), id.as_str());
        out.push(Speaker { id, label: Some(label), confidence: None });
        i += 1;
    }
    out
}

/// `a` comes before `b` in code-point order: where they first differ, `a`
/// has the smaller character, or `a` is a proper prefix of `b`. This is the
/// order of `String`'s `Ord`, since UTF-8 keeps code-point order.
pub open spec fn text_before(a: Seq<char>, b: Seq<char>) -> bool {
    exists|k: int|
        #![trigger a.subrange(0, k), b.subrange(0, k)]
        0 <= k <= a.len() && k <= b.len() && a.subrange(0, k) == b.subrange(0, k) && (
        (k == a.len() && k < b.len()) || (k < a.len() && k < b.len() && (a[k] as u32) < (b[k] as u32)))
}

/// Each entry comes before the next.
pub open spec fn ascending(v: Seq<String>) -> bool {
    forall|i: int| 0 <= i < v.len() - 1 ==> text_before((#[trigger] v[i])@, v[i + 1]@)
}

/// The outcome of comparing two texts.
#[derive(Debug, Clone, Copy, PartialEq, Eq, Structural)]
pub enum TextOrder {
    Less,
    Equal,
    Greater,
}

/// Compares two texts in code-point order.
pub fn compare_text(a: &str, b: &str) -> (r: TextOrder)
    ensures
        r == TextOrder::Less ==> text_before(a@, b@),
        r == TextOrder::Equal ==> a@ == b@,
        r == TextOrder::Greater ==> text_before(b@, a@),
{
    let la = a.unicode_len();
    let lb = b.unicode_len();
    let mut i: usize = 0;
    loop
        invariant
            la == a@.len(),
            lb == b@.len(),
            i <= la,
            i <= lb,
            a@.subrange(0, i as int) == b@.subrange(0, i as int),
        ensures
            i <= la,
            i <= lb,
            i == la || i == lb,
            a@.subrange(0, i as int) == b@.subrange(0, i as int),
        decreases la - i,
    {
        if i == la || i == lb {
            break;
        }
        let ca = a.get_char(i);
        let cb = b.get_char(i);
        if ca != cb {
            if (ca as u32) < (cb as u32) {
                assert(a@.subrange(0, i as int) == b@.subrange(0, i as int));
                return TextOrder::Less;
            } else {
                assert(b@.subrange(0, i as int) == a@.subrange(0, i as int));
                return TextOrder::Greater;
            }
        }
        assert(a@.subrange(0, i + 1) =~= a@.subrange(0, i as int).push(ca));
        assert(b@.subrange(0, i + 1) =~= b@.subrange(0, i as int).push(cb));
        i += 1;
    }
    if i == la && i == lb {
        assert(a@ =~= a@.subrange(0, i as int));
        assert(b@ =~= b@.subrange(0, i as int));
        TextOrder::Equal
    } else if i == la {
        assert(a@.subrange(0, i as int) == b@.subrange(0, i as int));
        TextOrder::Less
    } else {
        assert(b@.subrange(0, i as int) == a@.subrange(0, i as int));
        TextOrder::Greater
    }
}

/// The distinct tags, each once, in ascending code-point order.
pub fn sorted_distinct_tags(tags: &Vec<String>) -> (r: Vec<String>)
    ensures
        no_repeats(r@),
        same_texts(r@, tags@),
        ascending(r@),
{
    let mut out: Vec<String> = Vec::new();
    let mut i: usize = 0;
    while i < tags.len()
        invariant
            0 <= i <= tags@.len(),
            no_repeats(out@),
            ascending(out@),
            forall|k: int| 0 <= k < out@.len() ==> holds_text(tags@, (#[trigger] out@[k])@),
            forall|k: int| 0 <= k < i ==> holds_text(out@, (#[trigger] tags@[k])@),
        decreases tags@.len() - i,
    {
        let t = &tags[i];
        if !contains_text(&out, t) {
            let mut j: usize = 0;
            loop
                invariant
                    0 <= j <= out@.len(),
                    j > 0 ==> text_before(out@[j - 1]@, t@),
                    !holds_text(out@, t@),
                ensures
                    0 <= j <= out@.len(),
                    j > 0 ==> text_before(out@[j - 1]@, t@),
                    j < out@.len() ==> text_before(t@, out@[j as int]@),
                decreases out@.len() - j,
            {
                if j == out.len() {
                    break;
                }
                let c = compare_text(out[j].as_str(), t.as_str());
                if c == TextOrder::Less {
                    j += 1;
                } else {
                    proof {
                        if c == TextOrder::Equal {
                            assert(holds_text(out@, t@));
                        }
                    }
                    break;
                }
            }
            let ghost before = out@;
            out.insert(j, t.clone());
            proof {
                assert(out@ == before.insert(j as int, tags@[i as int]));
                assert forall|x: int, y: int| 0 <= x < y < out@.len() implies (#[trigger] out@[x])@ != (#[trigger] out@[y])@ by {
                    if x < j && y < j {
                        assert(out@[x] == before[x] && out@[y] == before[y]);
                    } else if x < j && y == j {
                        assert(out@[x] == before[x]);
                    } else if x < j {
                        assert(out@[x] == before[x] && out@[y] == before[y - 1]);
                    } else if x == j {
                        assert(out@[y] == before[y - 1]);
                    } else {
                        assert(out@[x] == before[x - 1] && out@[y] == before[y - 1]);
                    }
                }
                assert forall|x: int| 0 <= x < out@.len() - 1 implies text_before((#[trigger] out@[x])@, out@[x + 1]@) by {
                    if x + 1 < j {
                        assert(out@[x] == before[x] && out@[x + 1] == before[x + 1]);
                    } else if x + 1 == j {
                        assert(out@[x] == before[x]);
                    } else if x == j {
                        assert(out@[x + 1] == before[x]);
                    } else {
                        assert(out@[x] == before[x - 1] && out@[x + 1] == before[x]);
                    }
                }
                assert forall|k: int| 0 <= k < out@.len() implies holds_text(tags@, (#[trigger] out@[k])@) by {
                    if k < j {
                        assert(out@[k] == before[k]);
                    } else if k > j {
                        assert(out@[k] == before[k - 1]);
                    }
                }
                assert forall|k: int| 0 <= k < i + 1 implies holds_text(out@, (#[trigger] tags@[k])@) by {
                    if k < i {
                        let w = choose|w: int| 0 <= w < before.len() && (#[trigger] before[w])@ == tags@[k]@;
                        if w < j {
                            assert(out@[w] == before[w]);
                        } else {
                            assert(out@[w + 1] == before[w]);
                        }
                    } else {
                        assert(out@[j as int] == tags@[k]);
                    }
                }
            }
        } else {
            proof {
                assert forall|k: int| 0 <= k < i + 1 implies holds_text(out@, (#[trigger] tags@[k])@) by {
                    if k == i {
                        assert(holds_text(out@, t@));
                    }
                }
            }
        }
        i += 1;
    }
    out
}

} // verus!
