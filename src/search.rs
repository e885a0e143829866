use crate::record::decode_text;
use crate::record::lossy_text;
use vstd::prelude::*;
use vstd::string::StringExecFns;
use vstd::utf8::encode_utf8;

verus! {

/// The fields of a search form: the text searched for, and whether it is a
/// regular expression.
#[derive(Clone, Debug)]
pub struct OmnisearchFormParams {
    pub string: String,
    pub regex: bool,
}

/// Whether a byte is a hexadecimal digit.
pub open spec fn is_hex(b: u8) -> bool {
    (48 <= b <= 57) || (65 <= b <= 70) || (97 <= b <= 102)
}

/// The value of a hexadecimal digit.
pub open spec fn hex_val(b: u8) -> u8 {
    if b <= 57 {
        (b - 48) as u8
    } else if b <= 70 {
        (b - 55) as u8
    } else {
        (b - 87) as u8
    }
}

/// Bytes with each `%` followed by two hexadecimal digits replaced by the byte
/// they spell; any other `%` stays as it is.
pub open spec fn percent_decoded(b: Seq<u8>) -> Seq<u8>
    decreases b.len(),
{
    if b.len() == 0 {
        Seq::empty()
    } else if b[0] == 37 && b.len() >= 3 && is_hex(b[1]) && is_hex(b[2]) {
        seq![(hex_val(b[1]) * 16 + hex_val(b[2])) as u8] + percent_decoded(b.subrange(3, b.len() as int))
    } else {
        seq![b[0]] + percent_decoded(b.subrange(1, b.len() as int))
    }
}

/// The search text that a decoded query value gives: percent-decoded once
/// more, then read as text with invalid sequences replaced.
pub open spec fn search_text(v: Seq<char>) -> Seq<char> {
    lossy_text(percent_decoded(encode_utf8(v)))
}

fn hex_digit(b: u8) -> (r: Option<u8>)
    ensures
        r == (if is_hex(b) {
            Some(hex_val(b))
        } else {
            None::<u8>
        }),
        r matches Some(d) ==> d < 16,
{
    if 48 <= b && b <= 57 {
        Some(b - 48)
    } else if 65 <= b && b <= 70 {
        Some(b - 55)
    } else if 97 <= b && b <= 102 {
        Some(b - 87)
    } else {
        None
    }
}

/// Decodes `%XX` escapes in bytes.
pub fn percent_decode(b: &[u8]) -> (r: Vec<u8>)
    ensures
        r@ == percent_decoded(b@),
{
    let mut out: Vec<u8> = Vec::new();
    let mut i: usize = 0;
    proof {
        assert(b@.subrange(0, b@.len() as int) =~= b@);
        assert(out@ + percent_decoded(b@) =~= percent_decoded(b@));
    }
    while i < b.len()
        invariant
            i <= b@.len(),
            percent_decoded(b@) == out@ + percent_decoded(b@.subrange(i as int, b@.len() as int)),
        decreases b@.len() - i,
    {
        let ghost rest = b@.subrange(i as int, b@.len() as int);
        if b[i] == 37 && b.len() - i > 2 {
            let hi = hex_digit(b[i + 1]);
            let lo = hex_digit(b[i + 2]);
            if let (Some(h), Some(l)) = (hi, lo) {
                proof {
                    assert(rest[0] == 37 && rest[1] == b@[i + 1] && rest[2] == b@[i + 2]);
                    assert(rest.subrange(3, rest.len() as int) =~= b@.subrange(
                        i + 3,
                        b@.len() as int,
                    ));
                    assert((out@.push((h * 16 + l) as u8)) + percent_decoded(
                        b@.subrange(i + 3, b@.len() as int),
                    ) =~= out@ + percent_decoded(rest));
                }
                out.push(h * 16 + l);
                i += 3;
                continue;
            }
        }
        proof {
            assert(rest[0] == b@[i as int]);
            assert(rest.subrange(1, rest.len() as int) =~= b@.subrange(i + 1, b@.len() as int));
            assert((out@.push(b@[i as int])) + percent_decoded(b@.subrange(i + 1, b@.len() as int))
                =~= out@ + percent_decoded(rest));
        }
        out.push(b[i]);
        i += 1;
    }
    proof {
        assert(b@.subrange(i as int, b@.len() as int) =~= Seq::<u8>::empty());
        assert(out@ + Seq::<u8>::empty() =~= out@);
    }
    out
}

/// The search text of a decoded query value.
pub fn decode_search_text(v: &str) -> (r: String)
    ensures
        r@ == search_text(v@),
{
    let bytes = percent_decode(v.as_bytes());
    decode_text(&bytes)
}

/// Whether a form value switches a checkbox on.
pub open spec fn flag_on(v: Seq<char>) -> bool {
    v == "on"@ || v == "true"@
}

/// The search text and regex flag that decoded query pairs give: a later
/// pair overrides an earlier one with the same key, the search text is
/// percent-decoded once more, other keys are ignored, and the defaults are no
/// text and no regex.
pub open spec fn form_of(pairs: Seq<(Seq<char>, Seq<char>)>) -> (Seq<char>, bool)
    decreases pairs.len(),
{
    if pairs.len() == 0 {
        (Seq::empty(), false)
    } else {
        let before = form_of(pairs.drop_last());
        let (k, v) = pairs.last();
        if k == "string"@ {
            (search_text(v), before.1)
        } else if k == "regex"@ {
            (before.0, flag_on(v))
        } else {
            before
        }
    }
}

/// The text views of query pairs.
pub open spec fn pair_views(pairs: Seq<(String, String)>) -> Seq<(Seq<char>, Seq<char>)> {
    pairs.map_values(|p: (String, String)| (p.0@, p.1@))
}

impl OmnisearchFormParams {
    /// An empty search: no text, no regex.
    pub fn empty() -> (r: OmnisearchFormParams)
        ensures
            r.string@ == Seq::<char>::empty(),
            !r.regex,
    {
        OmnisearchFormParams { string: String::new(), regex: false }
    }

    /// Reads the form from decoded query pairs.
    pub fn from_pairs(pairs: &Vec<(String, String)>) -> (r: OmnisearchFormParams)
        ensures
            (r.string@, r.regex) == form_of(pair_views(pairs@)),
    {
        let string_key = String::from_str("string");
        let regex_key = String::from_str("regex");
        let on = String::from_str("on");
        let yes = String::from_str("true");
        let mut params = OmnisearchFormParams::empty();
        let mut i: usize = 0;
        while i < pairs.len()
            invariant
                i <= pairs@.len(),
                string_key@ == "string"@,
                regex_key@ == "regex"@,
                on@ == "on"@,
                yes@ == "true"@,
                (params.string@, params.regex) == form_of(
                    pair_views(pairs@).subrange(0, i as int),
                ),
            decreases pairs@.len() - i,
        {
            proof {
                let next = pair_views(pairs@).subrange(0, i as int + 1);
                assert(next.drop_last() =~= pair_views(pairs@).subrange(0, i as int));
                assert(next.last() == (pairs@[i as int].0@, pairs@[i as int].1@));
            }
            let (key, value) = &pairs[i];
            if *key == string_key {
                params.string = decode_search_text(value.as_str());
            } else if *key == regex_key {
                params.regex = *value == on || *value == yes;
            }
            i += 1;
        }
        proof {
            assert(pair_views(pairs@).subrange(0, i as int) =~= pair_views(pairs@));
        }
        params
    }
}

} // verus!
