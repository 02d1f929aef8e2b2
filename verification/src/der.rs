//! Reading the tag-length-value framing of DER, the distinguished encoding
//! in which X.509 certificates are written.
//!
//! Only what a certificate needs is supported: tags of one octet, and
//! definite lengths in their shortest form.

use vstd::prelude::*;
use vstd::slice::slice_subrange;

verus! {

/// The number that a run of octets writes in base 256, most significant
/// octet first.
pub open spec fn be_value(s: Seq<u8>) -> nat
    decreases s.len(),
{
    if s.len() == 0 {
        0
    } else {
        be_value(s.drop_last()) * 256 + s.last() as nat
    }
}

/// A leading part of a run of octets writes a number no larger than the
/// whole run does.
pub proof fn lemma_be_value_prefix(s: Seq<u8>, k: int)
    requires
        0 <= k <= s.len(),
    ensures
        be_value(s.subrange(0, k)) <= be_value(s),
    decreases s.len() - k,
{
    if k == s.len() {
        assert(s.subrange(0, k) =~= s);
    } else {
        lemma_be_value_prefix(s.drop_last(), k);
        assert(s.drop_last().subrange(0, k) =~= s.subrange(0, k));
    }
}

/// The length that the octets at the start of `b` announce, and the number
/// of octets that announce it.
///
/// The short form is one octet below 128. The long form is an octet
/// `128 + n` followed by `n` octets that write the length in base 256; DER
/// admits it only where the short form does not fit and without a leading
/// zero octet. The indefinite form (`128`) and the reserved octet `255` are
/// not DER.
pub open spec fn der_length(b: Seq<u8>) -> Option<(int, int)> {
    if b.len() == 0 {
        None
    } else if b[0] < 128 {
        Some((b[0] as int, 1int))
    } else {
        let n = b[0] - 128;
        if n == 0 || n == 127 || b.len() < 1 + n || b[1] == 0 || be_value(
            b.subrange(1, 1 + n),
        ) < 128 {
            None
        } else {
            Some((be_value(b.subrange(1, 1 + n)) as int, 1 + n))
        }
    }
}

/// One element of a DER encoding, and the bytes that follow it.
pub ghost struct DerElement {
    /// The identifier octet.
    pub tag: u8,
    /// The content octets.
    pub content: Seq<u8>,
    /// What follows the element.
    pub rest: Seq<u8>,
}

/// The element at the start of `b`, if `b` starts with a complete one.
///
/// An identifier octet whose low five bits are all set announces a tag of
/// several octets, which no field of a certificate has.
pub open spec fn der_first(b: Seq<u8>) -> Option<DerElement> {
    if b.len() == 0 || b[0] % 32 == 31 {
        None
    } else {
        match der_length(b.skip(1)) {
            None => None,
            Some((value, octets)) => if 1 + octets + value <= b.len() {
                Some(
                    DerElement {
                        tag: b[0],
                        content: b.subrange(1 + octets, 1 + octets + value),
                        rest: b.skip(1 + octets + value),
                    },
                )
            } else {
                None
            },
        }
    }
}

/// The contents of the elements that make up `b`, if `b` is exactly a
/// series of elements with the tags `tags`, in that order.
pub open spec fn der_fields(b: Seq<u8>, tags: Seq<u8>) -> Option<Seq<Seq<u8>>>
    decreases tags.len(),
{
    if tags.len() == 0 {
        if b.len() == 0 {
            Some(Seq::<Seq<u8>>::empty())
        } else {
            None
        }
    } else {
        match der_first(b) {
            None => None,
            Some(element) => if element.tag != tags[0] {
                None
            } else {
                match der_fields(element.rest, tags.drop_first()) {
                    None => None,
                    Some(others) => Some(seq![element.content] + others),
                }
            },
        }
    }
}

/// A series of elements has as many contents as it has tags.
pub proof fn lemma_der_fields_len(b: Seq<u8>, tags: Seq<u8>)
    ensures
        der_fields(b, tags) matches Some(fields) ==> fields.len() == tags.len(),
    decreases tags.len(),
{
    if tags.len() > 0 {
        match der_first(b) {
            None => {},
            Some(element) => {
                lemma_der_fields_len(element.rest, tags.drop_first());
            },
        }
    }
}

/// The octets of a BIT STRING with the content `c`, if `c` is well formed.
///
/// The first content octet counts the unused bits of the last octet: at most
/// seven, none where no octet follows, and DER wants them zero.
pub open spec fn bit_string_octets(c: Seq<u8>) -> Option<Seq<u8>> {
    if c.len() == 0 || c[0] > 7 {
        None
    } else if c.len() == 1 {
        if c[0] == 0 {
            Some(Seq::<u8>::empty())
        } else {
            None
        }
    } else if c.last() as int % bit_weight(c[0]) as int != 0 {
        None
    } else {
        Some(c.skip(1))
    }
}

/// Two to the power `bits`, for at most seven bits.
pub open spec fn bit_weight(bits: u8) -> u8
    recommends
        bits <= 7,
{
    if bits == 0 {
        1
    } else if bits == 1 {
        2
    } else if bits == 2 {
        4
    } else if bits == 3 {
        8
    } else if bits == 4 {
        16
    } else if bits == 5 {
        32
    } else if bits == 6 {
        64
    } else {
        128
    }
}

/// An element that was read from a byte slice, and the bytes after it.
pub struct DerItem<'a> {
    /// The identifier octet.
    pub tag: u8,
    /// The content octets.
    pub content: &'a [u8],
    /// What follows the element.
    pub rest: &'a [u8],
}

impl<'a> View for DerItem<'a> {
    type V = DerElement;

    open spec fn view(&self) -> DerElement {
        DerElement { tag: self.tag, content: self.content@, rest: self.rest@ }
    }
}

/// The contents that a list of borrowed pieces holds.
pub open spec fn pieces_view(pieces: Seq<&[u8]>) -> Seq<Seq<u8>> {
    Seq::new(pieces.len(), |i: int| pieces[i]@)
}

/// Reads the length octets at the start of `b`.
///
/// Returns the announced length and the number of octets read, unless the
/// octets are not a DER length or announce more than `b` holds after them.
fn read_length(b: &[u8]) -> (r: Option<(usize, usize)>)
    ensures
        match der_length(b@) {
            Some((value, octets)) => if octets + value <= b@.len() {
                r == Some((value as usize, octets as usize))
            } else {
                r is None
            },
            None => r is None,
        },
{
    if b.len() == 0 {
        return None;
    }
    let first = b[0];
    if first < 128 {
        if 1 + (first as usize) <= b.len() {
            return Some((first as usize, 1));
        } else {
            return None;
        }
    }
    let n: usize = (first - 128) as usize;
    if n == 0 || n == 127 || b.len() < 1 + n || b[1] == 0 {
        return None;
    }
    let ghost octets = b@.subrange(1, 1 + n);
    let mut value: usize = 0;
    let mut i: usize = 0;
    while i < n
        invariant
            i <= n,
            1 + n <= b@.len(),
            b@[0] == 128 + n,
            octets == b@.subrange(1, 1 + n),
            value == be_value(octets.subrange(0, i as int)),
            value <= b@.len(),
        decreases n - i,
    {
        let octet = b[1 + i];
        let next: u128 = (value as u128) * 256 + (octet as u128);
        proof {
            assert(octets.subrange(0, i + 1).drop_last() =~= octets.subrange(0, i as int));
            assert(octets.subrange(0, i + 1).last() == octet);
            assert(be_value(octets.subrange(0, i + 1)) == next);
            lemma_be_value_prefix(octets, i + 1);
        }
        if next > b.len() as u128 {
            return None;
        }
        value = next as usize;
        i = i + 1;
    }
    assert(octets.subrange(0, n as int) =~= octets);
    if value < 128 || value > b.len() - (1 + n) {
        return None;
    }
    Some((value, 1 + n))
}

/// Reads the element at the start of `b`.
pub fn read_element<'a>(b: &'a [u8]) -> (r: Option<DerItem<'a>>)
    ensures
        match der_first(b@) {
            Some(element) => r matches Some(item) && item@ == element,
            None => r is None,
        },
{
    if b.len() == 0 {
        return None;
    }
    let tag = b[0];
    if tag % 32 == 31 {
        return None;
    }
    let after_tag = slice_subrange(b, 1, b.len());
    match read_length(after_tag) {
        None => None,
        Some((value, octets)) => {
            let start = 1 + octets;
            let content = slice_subrange(b, start, start + value);
            let rest = slice_subrange(b, start + value, b.len());
            Some(DerItem { tag, content, rest })
        },
    }
}

/// Reads `b` as a series of elements with the tags `tags`, in that order,
/// and returns their contents.
///
/// Fails when an element is missing or malformed, when a tag differs, and
/// when bytes are left over.
pub fn read_fields<'a>(b: &'a [u8], tags: &[u8]) -> (r: Option<Vec<&'a [u8]>>)
    ensures
        match der_fields(b@, tags@) {
            Some(fields) => r matches Some(pieces) && pieces_view(pieces@) == fields,
            None => r is None,
        },
{
    let mut pieces: Vec<&'a [u8]> = Vec::new();
    let mut rest: &'a [u8] = b;
    let mut i: usize = 0;
    assert(tags@.skip(0) =~= tags@);
    while i < tags.len()
        invariant
            i <= tags@.len(),
            pieces@.len() == i,
            match der_fields(rest@, tags@.skip(i as int)) {
                Some(others) => der_fields(b@, tags@) == Some(pieces_view(pieces@) + others),
                None => der_fields(b@, tags@) is None,
            },
        decreases tags@.len() - i,
    {
        let ghost before = pieces_view(pieces@);
        assert(tags@.skip(i as int).drop_first() =~= tags@.skip(i + 1));
        match read_element(rest) {
            None => {
                return None;
            },
            Some(item) => {
                if item.tag != tags[i] {
                    return None;
                }
                pieces.push(item.content);
                rest = item.rest;
                i = i + 1;
                proof {
                    assert(pieces_view(pieces@) =~= before + seq![item.content@]);
                    match der_fields(rest@, tags@.skip(i as int)) {
                        Some(others) => {
                            assert(before + (seq![item.content@] + others) =~= pieces_view(
                                pieces@,
                            ) + others);
                        },
                        None => {},
                    }
                }
            },
        }
    }
    if rest.len() != 0 {
        return None;
    }
    Some(pieces)
}

/// Reads the content of a BIT STRING and returns its octets.
pub fn read_bit_string<'a>(content: &'a [u8]) -> (r: Option<&'a [u8]>)
    ensures
        match bit_string_octets(content@) {
            Some(octets) => r matches Some(piece) && piece@ == octets,
            None => r is None,
        },
{
    if content.len() == 0 {
        return None;
    }
    let unused = content[0];
    if unused > 7 {
        return None;
    }
    if content.len() == 1 {
        if unused == 0 {
            let piece = slice_subrange(content, 1, 1);
            return Some(piece);
        } else {
            return None;
        }
    }
    let last = content[content.len() - 1];
    if last % weight_of(unused) != 0 {
        return None;
    }
    let piece = slice_subrange(content, 1, content.len());
    Some(piece)
}

/// Two to the power `bits`.
fn weight_of(bits: u8) -> (w: u8)
    requires
        bits <= 7,
    ensures
        w == bit_weight(bits),
        w > 0,
{
    match bits {
        0 => 1,
        1 => 2,
        2 => 4,
        3 => 8,
        4 => 16,
        5 => 32,
        6 => 64,
        _ => 128,
    }
}

} // verus!
