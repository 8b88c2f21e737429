//! Variables the plugin announces through the environment callback.
//!
//! Each definition arrives as a key and a packed value string of the form
//! `description; option|option|...`.  The definitions are parsed and kept;
//! they are not yet applied back to the plugin.

use vstd::prelude::*;

verus! {

/// A variable queried or set by the plugin.
pub struct Variable {
    pub key: String,
    /// A query may arrive without a value.
    pub value: Option<String>,
}

impl Variable {
    pub fn new(key: String, value: Option<String>) -> (r: Variable)
        ensures
            r.key == key,
            r.value == value,
    {
        Variable { key, value }
    }
}

/// A variable definition: its key, a description, and the pipe-separated
/// options the plugin offers for it.
pub struct VariableDef {
    pub key: String,
    pub desc: String,
    pub opts: Vec<String>,
}

/// The segments of `s` split at every `sep`, rejoined with the separator,
/// give back `s`; this is the characterising property of the split.
pub open spec fn spec_join(segs: Seq<Seq<char>>, sep: char) -> Seq<char>
    decreases segs.len(),
{
    if segs.len() == 0 {
        Seq::empty()
    } else if segs.len() == 1 {
        segs[0]
    } else {
        spec_join(segs.drop_last(), sep) + seq![sep] + segs.last()
    }
}

/// Splits `s` at every occurrence of `sep`.  The segments contain no
/// separator, there is at least one, and joining them with the separator
/// restores `s` exactly.
pub fn split_on(s: &str, sep: char) -> (r: Vec<String>)
    ensures
        r@.len() >= 1,
        spec_join(r@.map_values(|x: String| x@), sep) == s@,
        forall|k: int, j: int|
            0 <= k < r@.len() && 0 <= j < r@[k]@.len() ==> #[trigger] r@[k]@[j] != sep,
{
    let len = s.unicode_len();
    let mut r: Vec<String> = Vec::new();
    let mut start: usize = 0;
    let mut i: usize = 0;
    while i < len
        invariant
            len == s@.len(),
            0 <= start <= i <= len,
            spec_join(r@.map_values(|x: String| x@).push(s@.subrange(start as int, i as int)), sep)
                == s@.take(i as int),
            forall|k: int, j: int|
                0 <= k < r@.len() && 0 <= j < r@[k]@.len() ==> #[trigger] r@[k]@[j] != sep,
            forall|j: int| start <= j < i ==> s@[j] != sep,
        decreases len - i,
    {
        let c = s.get_char(i);
        let ghost segs = r@.map_values(|x: String| x@);
        let ghost cur = s@.subrange(start as int, i as int);
        if c == sep {
            let seg = s.substring_char(start, i);
            r.push(String::from_str(seg));
            start = i + 1;
            proof {
                let segs2 = r@.map_values(|x: String| x@);
                assert(segs2 =~= segs.push(cur));
                let cur2 = s@.subrange(i + 1, i + 1);
                assert(cur2 =~= Seq::<char>::empty());
                assert(segs2.push(cur2).drop_last() =~= segs.push(cur));
                assert(spec_join(segs2.push(cur2), sep) == spec_join(segs.push(cur), sep) + seq![
                    sep,
                ] + cur2);
                assert(s@.take(i + 1) =~= s@.take(i as int).push(sep));
                assert(spec_join(segs2.push(cur2), sep) =~= s@.take(i + 1));
            }
        } else {
            proof {
                let cur2 = s@.subrange(start as int, i + 1);
                assert(cur2 =~= cur.push(c));
                assert(s@.take(i + 1) =~= s@.take(i as int).push(c));
                if segs.len() == 0 {
                    assert(spec_join(segs.push(cur2), sep) == cur2);
                    assert(spec_join(segs.push(cur), sep) == cur);
                } else {
                    assert(segs.push(cur2).drop_last() =~= segs);
                    assert(segs.push(cur).drop_last() =~= segs);
                }
                assert(spec_join(segs.push(cur2), sep) =~= s@.take(i + 1));
            }
        }
        i = i + 1;
    }
    proof {
        assert(s@.take(len as int) =~= s@);
    }
    let seg = s.substring_char(start, len);
    let ghost segs = r@.map_values(|x: String| x@);
    r.push(String::from_str(seg));
    proof {
        let segs2 = r@.map_values(|x: String| x@);
        assert(segs2 =~= segs.push(s@.subrange(start as int, len as int)));
    }
    r
}

/// A definition's packed value: the description, a semicolon and a space,
/// then the options.
pub open spec fn spec_packed_value(desc: Seq<char>, opts_str: Seq<char>) -> Seq<char> {
    desc + "; "@ + opts_str
}

/// Splits a packed value at the first `; ` into description and options.
/// The description holds no earlier occurrence of the marker, and nothing
/// is returned when the marker does not occur at all.
pub fn split_desc(s: &str) -> (r: Option<(String, String)>)
    ensures
        match r {
            Some(pair) => {
                &&& s@ == spec_packed_value(pair.0@, pair.1@)
                &&& forall|j: int|
                    0 <= j < pair.0@.len() - 1 ==> !(pair.0@[j] == ';' && #[trigger] pair.0@[j + 1]
                        == ' ')
            },
            None => forall|j: int|
                0 <= j < s@.len() - 1 ==> !(s@[j] == ';' && #[trigger] s@[j + 1] == ' '),
        },
{
    let len = s.unicode_len();
    if len < 2 {
        return None;
    }
    let mut i: usize = 0;
    while i < len - 1
        invariant
            len == s@.len(),
            2 <= len,
            0 <= i <= len - 1,
            forall|j: int| 0 <= j < i ==> !(s@[j] == ';' && #[trigger] s@[j + 1] == ' '),
        decreases len - i,
    {
        if s.get_char(i) == ';' && s.get_char(i + 1) == ' ' {
            let desc = s.substring_char(0, i);
            let opts = s.substring_char(i + 2, len);
            proof {
                reveal_strlit("; ");
                assert("; "@ =~= seq![';', ' ']);
                assert(s@ =~= desc@ + "; "@ + opts@);
                assert(forall|j: int|
                    0 <= j < desc@.len() - 1 ==> !(desc@[j] == ';' && #[trigger] desc@[j + 1]
                        == ' '));
            }
            return Some((String::from_str(desc), String::from_str(opts)));
        }
        i = i + 1;
    }
    None
}

impl VariableDef {
    /// Parses one announced definition from its key and packed value.
    /// Exactly the values holding the `; ` marker yield a definition: the
    /// description is what precedes the first marker, and the option list
    /// is the remainder split at every pipe.
    pub fn parse(key: String, value: &str) -> (r: Option<VariableDef>)
        ensures
            match r {
                Some(d) => {
                    &&& d.key == key
                    &&& value@ == spec_packed_value(
                        d.desc@,
                        spec_join(d.opts@.map_values(|x: String| x@), '|'),
                    )
                    &&& d.opts@.len() >= 1
                    &&& forall|k: int, j: int|
                        0 <= k < d.opts@.len() && 0 <= j < d.opts@[k]@.len()
                            ==> #[trigger] d.opts@[k]@[j] != '|'
                },
                None => forall|j: int|
                    0 <= j < value@.len() - 1 ==> !(value@[j] == ';' && #[trigger] value@[j + 1]
                        == ' '),
            },
    {
        match split_desc(value) {
            None => None,
            Some((desc, opts_str)) => {
                let opts = split_on(opts_str.as_str(), '|');
                Some(VariableDef { key, desc, opts })
            },
        }
    }
}

} // verus!
