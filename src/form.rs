use vstd::prelude::*;
use vstd::slice::slice_subrange;
use vstd::utf8::encode_utf8;

verus! {

/// The decoded pairs of an `application/x-www-form-urlencoded` byte string,
/// in the order in which they stand in it.
pub uninterp spec fn form_pairs_of(enc: Seq<u8>) -> Seq<(Seq<char>, Seq<char>)>;

/// The pairs of a field mapping as character sequences.
pub open spec fn pairs_view(v: Seq<(String, String)>) -> Seq<(Seq<char>, Seq<char>)> {
    v.map_values(|p: (String, String)| (p.0@, p.1@))
}

/// Relies on `url::form_urlencoded::parse`: it decodes the pairs of a form
/// body in order, and yields none for an empty input.
#[verifier::external_body]
fn parse_form(enc: &[u8]) -> (r: Vec<(String, String)>)
    ensures
        pairs_view(r@) == form_pairs_of(enc@),
        enc@.len() == 0 ==> r@.len() == 0,
{
    url::form_urlencoded::parse(enc).into_owned().collect()
}

/// Decoded key/value pairs of a query string or form body. Lookups take the
/// last value given for a key; the order of the pairs is kept.
#[derive(Debug, Clone)]
pub struct FieldMapping {
    pub pairs: Vec<(String, String)>,
}

impl View for FieldMapping {
    type V = Seq<(Seq<char>, Seq<char>)>;

    open spec fn view(&self) -> Seq<(Seq<char>, Seq<char>)> {
        pairs_view(self.pairs@)
    }
}

/// The value of the last pair whose key is `key`.
pub open spec fn lookup(pairs: Seq<(Seq<char>, Seq<char>)>, key: Seq<char>) -> Option<Seq<char>>
    decreases pairs.len(),
{
    if pairs.len() == 0 {
        None
    } else if pairs.last().0 == key {
        Some(pairs.last().1)
    } else {
        lookup(pairs.drop_last(), key)
    }
}

/// The byte that separates a path from its query.
pub const QUESTION_MARK: u8 = 63;

/// How many question marks stand in `p`.
pub open spec fn question_marks(p: Seq<u8>) -> nat
    decreases p.len(),
{
    if p.len() == 0 {
        0
    } else {
        question_marks(p.drop_last()) + if p.last() == QUESTION_MARK { 1nat } else { 0nat }
    }
}

/// The index of the first question mark in `p`, or -1.
pub open spec fn first_question_mark(p: Seq<u8>) -> int
    decreases p.len(),
{
    if p.len() == 0 {
        -1
    } else if first_question_mark(p.drop_last()) >= 0 {
        first_question_mark(p.drop_last())
    } else if p.last() == QUESTION_MARK {
        p.len() - 1
    } else {
        -1
    }
}

/// The arguments of a request path (as UTF-8 bytes): the form pairs of what
/// follows its question mark where there is exactly one, and none otherwise.
pub open spec fn path_args(p: Seq<u8>) -> Seq<(Seq<char>, Seq<char>)> {
    if question_marks(p) == 1 {
        form_pairs_of(p.subrange(first_question_mark(p) + 1, p.len() as int))
    } else {
        Seq::empty()
    }
}

proof fn lemma_first_question_mark_bounds(p: Seq<u8>)
    ensures
        -1 <= first_question_mark(p) < p.len(),
        first_question_mark(p) >= 0 ==> p[first_question_mark(p)] == QUESTION_MARK,
        question_marks(p) > 0 <==> first_question_mark(p) >= 0,
    decreases p.len(),
{
    if p.len() > 0 {
        lemma_first_question_mark_bounds(p.drop_last());
    }
}

/// Decodes a form body into a field mapping.
pub fn args_from_urlencoded(enc: &[u8]) -> (r: FieldMapping)
    ensures
        r@ == form_pairs_of(enc@),
{
    FieldMapping { pairs: parse_form(enc) }
}

/// The query arguments of a request path. A path without exactly one `?`
/// has no arguments; that is not an error.
pub fn get_args(path: &str) -> (r: FieldMapping)
    ensures
        r@ == path_args(encode_utf8(path@)),
{
    let bytes = path.as_bytes();
    let mut count: usize = 0;
    let mut first: usize = 0;
    let mut i: usize = 0;
    while i < bytes.len()
        invariant
            i <= bytes@.len(),
            count as nat == question_marks(bytes@.subrange(0, i as int)),
            count <= i,
            count > 0 ==> first as int == first_question_mark(bytes@.subrange(0, i as int)),
        decreases bytes@.len() - i,
    {
        let ghost pre = bytes@.subrange(0, i as int);
        assert(bytes@.subrange(0, i + 1).drop_last() =~= pre);
        proof {
            lemma_first_question_mark_bounds(pre);
        }
        if bytes[i] == QUESTION_MARK {
            if count == 0 {
                first = i;
            }
            count = count + 1;
        }
        i = i + 1;
    }
    assert(bytes@.subrange(0, i as int) =~= bytes@);
    if count != 1 {
        return FieldMapping { pairs: Vec::new() };
    }
    proof {
        lemma_first_question_mark_bounds(bytes@);
    }
    let query = slice_subrange(bytes, first + 1, bytes.len());
    args_from_urlencoded(query)
}

} // verus!
