//! Allow-list filtering of inbound events over three independent, optional
//! dimensions: the event type, the subject, and the data-content-type.

use vstd::prelude::*;
use vstd::string::StrSliceExecFns;
use vstd::string::StringExecFns;
use crate::event::{opt_as_str, Event};

verus! {

/// The raw configuration of the filter: one comma/space-separated allow-list
/// per dimension, an empty string meaning the dimension is unconfigured.
#[derive(Clone, Debug)]
pub struct FilterConfig {
    pub types: String,
    pub subjects: String,
    pub data_content_types: String,
}

/// The compiled filter: one optional set of allowed values per dimension.
/// A dimension that is `None` always passes; one that is `Some` rejects an
/// event lacking the attribute and otherwise requires exact membership.
#[derive(Clone, Debug)]
pub struct Filter {
    pub types: Option<Vec<String>>,
    pub subjects: Option<Vec<String>>,
    pub data_content_types: Option<Vec<String>>,
}

/// The characters that separate entries of a configured allow-list.
pub open spec fn is_separator(c: char) -> bool {
    c == ',' || c == ' '
}

/// The tokens of `s` between separator characters, empty tokens included:
/// splitting yields exactly one more token than there are separators.
pub open spec fn split_tokens(s: Seq<char>) -> Seq<Seq<char>>
    decreases s.len(),
{
    if s.len() == 0 {
        seq![Seq::<char>::empty()]
    } else if is_separator(s[0]) {
        seq![Seq::<char>::empty()] + split_tokens(s.drop_first())
    } else {
        let rest = split_tokens(s.drop_first());
        seq![seq![s[0]] + rest[0]] + rest.drop_first()
    }
}

/// The set of allowed values of one dimension, given its raw configuration
/// string: unconfigured when the string is empty, else its tokens.
pub open spec fn dimension_spec(s: Seq<char>) -> Option<Seq<Seq<char>>> {
    if s.len() == 0 {
        None
    } else {
        Some(split_tokens(s))
    }
}

/// One dimension's rule: an unconfigured dimension passes regardless of the
/// value; a configured one rejects an absent value and otherwise requires
/// membership.
pub open spec fn dimension_passes(allowed: Option<Seq<Seq<char>>>, value: Option<Seq<char>>) -> bool {
    match (value, allowed) {
        (_, None) => true,
        (None, Some(_)) => false,
        (Some(v), Some(a)) => a.contains(v),
    }
}

/// The view of one compiled dimension.
pub open spec fn dimension_view(d: Option<Vec<String>>) -> Option<Seq<Seq<char>>> {
    d.deep_view()
}

/// The view of an optional attribute value.
pub open spec fn value_view(v: Option<&str>) -> Option<Seq<char>> {
    match v {
        Some(s) => Some(s@),
        None => None,
    }
}

proof fn lemma_split_tokens_len(s: Seq<char>)
    ensures
        split_tokens(s).len() >= 1,
    decreases s.len(),
{
    if s.len() != 0 {
        lemma_split_tokens_len(s.drop_first());
    }
}

/// A string without separators is a single token.
proof fn lemma_split_no_separator(s: Seq<char>)
    requires
        forall|j: int| 0 <= j < s.len() ==> !is_separator(s[j]),
    ensures
        split_tokens(s) == seq![s],
    decreases s.len(),
{
    if s.len() == 0 {
        assert(s =~= Seq::<char>::empty());
    } else {
        let d = s.drop_first();
        lemma_split_no_separator(d);
        lemma_split_tokens_len(d);
        assert((seq![d]).drop_first() =~= Seq::<Seq<char>>::empty());
        assert(seq![s[0]] + d =~= s);
        assert(split_tokens(s) =~= seq![s]);
    }
}

/// Splitting at the first separator: the prefix is the first token and the
/// suffix splits independently.
proof fn lemma_split_at_separator(s: Seq<char>, i: int)
    requires
        0 <= i < s.len(),
        is_separator(s[i]),
        forall|j: int| 0 <= j < i ==> !is_separator(s[j]),
    ensures
        split_tokens(s) == seq![s.subrange(0, i)] + split_tokens(
            s.subrange(i + 1, s.len() as int),
        ),
    decreases i,
{
    if i == 0 {
        assert(s.subrange(0, 0) =~= Seq::<char>::empty());
        assert(s.drop_first() =~= s.subrange(1, s.len() as int));
    } else {
        let d = s.drop_first();
        assert(forall|j: int| 0 <= j < i - 1 ==> !is_separator(d[j]));
        lemma_split_at_separator(d, i - 1);
        let tail = d.subrange(i, d.len() as int);
        lemma_split_tokens_len(tail);
        let rest = split_tokens(d);
        assert(rest[0] == d.subrange(0, i - 1));
        assert(rest.drop_first() =~= split_tokens(tail));
        assert(seq![s[0]] + d.subrange(0, i - 1) =~= s.subrange(0, i));
        assert(tail =~= s.subrange(i + 1, s.len() as int));
        assert(split_tokens(s) =~= seq![s.subrange(0, i)] + split_tokens(
            s.subrange(i + 1, s.len() as int),
        ));
    }
}

impl Filter {
    /// Whether this filter lets an event with the given attribute values
    /// through: the conjunction of the three independent dimension rules.
    pub open spec fn accepts(&self, ty: Seq<char>, subject: Option<Seq<char>>, datacontenttype: Option<Seq<char>>) -> bool {
        dimension_passes(dimension_view(self.types), Some(ty)) && dimension_passes(
            dimension_view(self.subjects),
            subject,
        ) && dimension_passes(dimension_view(self.data_content_types), datacontenttype)
    }

    /// Compiles one dimension's configuration string: `None` for an empty
    /// string, else the list of its comma/space-separated tokens.
    pub fn split(s: &String) -> (r: Option<Vec<String>>)
        ensures
            r.deep_view() == dimension_spec(s@),
    {
        let st: &str = s.as_str();
        let n: usize = st.unicode_len();
        if n == 0 {
            return None;
        }
        let mut tokens: Vec<String> = Vec::new();
        let mut start: usize = 0;
        let mut i: usize = 0;
        proof {
            assert(s@.subrange(0, n as int) =~= s@);
            assert(tokens.deep_view() + split_tokens(s@) =~= split_tokens(s@));
        }
        while i < n
            invariant
                st@ == s@,
                n == s@.len(),
                start <= i <= n,
                forall|j: int| start <= j < i ==> !is_separator(s@[j]),
                split_tokens(s@) == tokens.deep_view() + split_tokens(
                    s@.subrange(start as int, n as int),
                ),
            decreases n - i,
        {
            let c = st.get_char(i);
            if c == ',' || c == ' ' {
                let tok = String::from_str(st.substring_char(start, i));
                let ghost prev = tokens.deep_view();
                proof {
                    let sub = s@.subrange(start as int, n as int);
                    lemma_split_at_separator(sub, i - start);
                    assert(sub.subrange(0, i - start) =~= s@.subrange(start as int, i as int));
                    assert(sub.subrange(i - start + 1, sub.len() as int) =~= s@.subrange(
                        i as int + 1,
                        n as int,
                    ));
                }
                tokens.push(tok);
                proof {
                    assert(tokens.deep_view() =~= prev.push(tok@));
                    assert(prev.push(tok@) =~= prev + seq![tok@]);
                    assert((prev + seq![tok@]) + split_tokens(s@.subrange(i as int + 1, n as int))
                        =~= prev + (seq![tok@] + split_tokens(s@.subrange(i as int + 1, n as int))));
                }
                start = i + 1;
            }
            i = i + 1;
        }
        let tok = String::from_str(st.substring_char(start, n));
        let ghost prev = tokens.deep_view();
        proof {
            lemma_split_no_separator(s@.subrange(start as int, n as int));
        }
        tokens.push(tok);
        proof {
            assert(tokens.deep_view() =~= prev.push(tok@));
            assert(prev.push(tok@) =~= prev + seq![tok@]);
            assert(tokens.deep_view() =~= split_tokens(s@));
        }
        Some(tokens)
    }

    /// Compiles the raw configuration into a filter, dimension by dimension.
    pub fn from_config(config: &FilterConfig) -> (r: Filter)
        ensures
            dimension_view(r.types) == dimension_spec(config.types@),
            dimension_view(r.subjects) == dimension_spec(config.subjects@),
            dimension_view(r.data_content_types) == dimension_spec(config.data_content_types@),
    {
        Filter {
            types: Self::split(&config.types),
            subjects: Self::split(&config.subjects),
            data_content_types: Self::split(&config.data_content_types),
        }
    }

    /// Evaluates one dimension's rule against an observed value.
    pub fn pass(&self, filter: &Option<Vec<String>>, value: Option<&str>) -> (r: bool)
        ensures
            r == dimension_passes(dimension_view(*filter), value_view(value)),
    {
        match (value, filter) {
            (_, None) => true,
            (None, Some(_)) => false,
            (Some(v), Some(allowed)) => contains_str(allowed, v),
        }
    }

    /// Whether the event passes all three dimensions. Evaluation
    /// short-circuits on the first failing dimension, which is equivalent to
    /// the conjunction of all three.
    pub fn test(&self, event: &Event) -> (r: bool)
        ensures
            r == self.accepts(event.ty@, event@.subject, event@.datacontenttype),
    {
        if !self.pass(&self.types, Some(event.ty.as_str())) {
            return false;
        }
        if !self.pass(&self.subjects, opt_as_str(&event.subject)) {
            return false;
        }
        if !self.pass(&self.data_content_types, opt_as_str(&event.datacontenttype)) {
            return false;
        }
        true
    }
}

/// Whether `v` occurs among the entries of `list`.
fn contains_str(list: &Vec<String>, v: &str) -> (r: bool)
    ensures
        r == list.deep_view().contains(v@),
{
    let vs = String::from_str(v);
    let mut i: usize = 0;
    while i < list.len()
        invariant
            i <= list.len(),
            vs@ == v@,
            forall|j: int| 0 <= j < i ==> list.deep_view()[j] != v@,
        decreases list.len() - i,
    {
        if list[i] == vs {
            assert(list.deep_view()[i as int] == v@);
            return true;
        }
        i = i + 1;
    }
    assert(forall|j: int| 0 <= j < list.deep_view().len() ==> list.deep_view()[j] != v@);
    false
}

} // verus!
