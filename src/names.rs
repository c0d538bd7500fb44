//! Generated names: random hexadecimal identifiers, DNS labels and pod names
//! that are valid RFC 1123 subdomains.
use vstd::prelude::*;
use convert_case::Casing;
use rand::Rng;
use crate::text::{hex_char, hex_digit, string_from_chars};

verus! {

/// The longest DNS label.
pub const MAX_LABEL_LEN: usize = 63;
/// The characters of a full identifier.
pub const UUID_LEN: usize = 32;
/// The fewest identifier characters a subdomain keeps.
pub const MIN_UUID_LEN: usize = 8;

/// A lowercase hexadecimal digit.
pub open spec fn is_hex_digit(c: char) -> bool {
    ('0' <= c && c <= '9') || ('a' <= c && c <= 'f')
}

/// A lowercase hexadecimal identifier of full length.
pub open spec fn is_uuid(s: Seq<char>) -> bool {
    s.len() == UUID_LEN && forall|i: int| 0 <= i < s.len() ==> is_hex_digit(#[trigger] s[i])
}

/// An ASCII letter or digit.
pub open spec fn is_ascii_alphanumeric(c: char) -> bool {
    ('a' <= c <= 'z') || ('A' <= c <= 'Z') || ('0' <= c <= '9')
}

/// Every character of `s` is ASCII.
pub open spec fn all_ascii(s: Seq<char>) -> bool {
    forall|i: int| 0 <= i < s.len() ==> (#[trigger] s[i]) as u32 <= 0x7f
}

/// What converting a string to kebab case gives.
pub uninterp spec fn kebab_of(s: Seq<char>) -> Seq<char>;

pub assume_specification<T>[ rand::random::<T> ]() -> (r: T)
    where
        rand::distributions::Standard: rand::distributions::Distribution<T>,
;

/// Relies on convert_case's `Casing::to_case` with `Case::Kebab`. Its word
/// splitting mixes character and byte positions, so the input is ASCII.
#[verifier::external_body]
fn to_kebab(s: &str) -> (r: String)
    requires
        all_ascii(s@),
    ensures
        r@ == kebab_of(s@),
        all_ascii(r@),
{
    s.to_case(convert_case::Case::Kebab)
}

/// Relies on rand's `Rng::gen_range` over `'a'..='z'`: a letter of that range.
#[verifier::external_body]
fn random_lowercase_letter() -> (r: char)
    ensures
        'a' <= r <= 'z',
{
    rand::thread_rng().gen_range('a'..='z')
}

/// The `i`-th of the 32 hexadecimal digits of `x`, most significant first.
pub open spec fn nibble(x: u128, i: int) -> nat {
    ((x >> ((4 * (31 - i)) as u128)) & 15u128) as nat
}

/// The 32 lowercase hexadecimal digits of `x`, most significant first.
pub open spec fn hex128(x: u128) -> Seq<char> {
    Seq::new(32, |i: int| hex_char(nibble(x, i)))
}

proof fn lemma_hex_chars_are_hex(d: nat)
    requires
        d < 16,
    ensures
        is_hex_digit(hex_char(d)),
{
}

/// The 32 lowercase hexadecimal digits of `x`, most significant first.
pub fn hex_of(x: u128) -> (r: String)
    ensures
        r@ == hex128(x),
        is_uuid(r@),
{
    let mut digits: Vec<char> = Vec::new();
    let mut i: usize = 0;
    while i < UUID_LEN
        invariant
            i <= UUID_LEN,
            digits@ == Seq::new(i as nat, |j: int| hex_char(nibble(x, j))),
        decreases UUID_LEN - i,
    {
        let shift: u128 = (4 * (UUID_LEN - 1 - i)) as u128;
        let d = (x >> shift) & 15u128;
        assert(((x >> shift) & 15u128) < 16) by (bit_vector);
        digits.push(hex_digit(d as u8));
        assert(digits@ =~= Seq::new((i + 1) as nat, |j: int| hex_char(nibble(x, j))));
        i = i + 1;
    }
    assert(digits@ =~= hex128(x));
    assert forall|j: int| 0 <= j < 32 implies is_hex_digit(#[trigger] hex128(x)[j]) by {
        let n = nibble(x, j);
        let s = (4 * (31 - j)) as u128;
        assert(((x >> s) & 15u128) < 16) by (bit_vector);
        lemma_hex_chars_are_hex(n);
    }
    string_from_chars(&digits)
}

/// A random lowercase hexadecimal identifier of 32 digits.
pub fn uuid() -> (r: String)
    ensures
        is_uuid(r@),
{
    let x: u128 = rand::random::<u128>();
    hex_of(x)
}

/// A valid RFC 1035 label: a lowercase letter, then lowercase letters or digits.
pub open spec fn is_rfc1035_label(s: Seq<char>) -> bool {
    &&& s.len() == UUID_LEN
    &&& 'a' <= s[0] <= 'z'
    &&& forall|i: int| 0 <= i < s.len() ==> is_hex_digit(#[trigger] s[i]) || ('a' <= s[i] <= 'z')
}

/// A random identifier that is also a valid RFC 1035 label: a leading digit is
/// replaced by a random lowercase letter.
pub fn rfc1035_label() -> (r: String)
    ensures
        is_rfc1035_label(r@),
{
    let name = uuid();
    let first = name.as_str().get_char(0);
    if 'a' <= first && first <= 'f' {
        return name;
    }
    let letter = random_lowercase_letter();
    let mut chars: Vec<char> = Vec::new();
    chars.push(letter);
    let mut i: usize = 1;
    while i < UUID_LEN
        invariant
            name@.len() == UUID_LEN,
            is_uuid(name@),
            1 <= i <= UUID_LEN,
            chars@.len() == i,
            'a' <= chars@[0] <= 'z',
            forall|j: int| 1 <= j < i ==> #[trigger] chars@[j] == name@[j],
        decreases UUID_LEN - i,
    {
        chars.push(name.as_str().get_char(i));
        i = i + 1;
    }
    let r = string_from_chars(&chars);
    assert forall|j: int| 0 <= j < r@.len() implies is_hex_digit(#[trigger] r@[j]) || ('a' <= r@[j] <= 'z') by {
        if j > 0 {
            assert(is_hex_digit(name@[j]));
        }
    }
    r
}

/// The prefix used when a requested name has nothing left after normalisation.
pub open spec fn default_prefix() -> Seq<char> {
    "invalid-rfc1123-connector-name"@
}

/// Every character that is not an ASCII letter or digit becomes a space.
pub open spec fn masked(s: Seq<char>) -> Seq<char> {
    s.map_values(|c: char| if is_ascii_alphanumeric(c) { c } else { ' ' })
}

/// The normalised prefix of a requested name.
pub open spec fn normalised(name: Seq<char>) -> Seq<char> {
    let k = kebab_of(masked(name));
    if k.len() == 0 { default_prefix() } else { k }
}

/// `prefix-id`, with the prefix and the identifier cut so that the whole fits
/// in one label and keeps at least eight identifier characters.
pub open spec fn subdomain_of(prefix: Seq<char>, id: Seq<char>) -> Seq<char> {
    if id.len() + prefix.len() + 1 <= MAX_LABEL_LEN {
        prefix + "-"@ + id
    } else if prefix.len() + MIN_UUID_LEN + 1 > MAX_LABEL_LEN {
        prefix.take((MAX_LABEL_LEN - MIN_UUID_LEN - 1) as int) + "-"@ + id.take(MIN_UUID_LEN as int)
    } else {
        prefix + "-"@ + id.take(MAX_LABEL_LEN - 1 - prefix.len())
    }
}

/// `prefix-id` cut to fit in one label, for an already normalised prefix and
/// a full identifier.
pub fn subdomain_from(prefix: &str, id: &str) -> (r: String)
    requires
        id@.len() == UUID_LEN,
    ensures
        r@ == subdomain_of(prefix@, id@),
{
    proof { reveal_strlit("-"); }
    let plen = prefix.unicode_len();
    let ilen = id.unicode_len();
    let (p, u): (&str, &str) = if plen <= MAX_LABEL_LEN - 1 - ilen {
        (prefix, id)
    } else if plen > MAX_LABEL_LEN - MIN_UUID_LEN - 1 {
        (prefix.substring_char(0, MAX_LABEL_LEN - MIN_UUID_LEN - 1), id.substring_char(0, MIN_UUID_LEN))
    } else {
        (prefix, id.substring_char(0, MAX_LABEL_LEN - 1 - plen))
    };
    let mut out = String::from_str(p);
    out.append("-");
    out.append(u);
    out
}

/// A subdomain never exceeds one label.
pub proof fn lemma_subdomain_fits(prefix: Seq<char>, id: Seq<char>)
    requires
        id.len() == UUID_LEN,
    ensures
        subdomain_of(prefix, id).len() <= MAX_LABEL_LEN,
        subdomain_of(prefix, id).len() >= MIN_UUID_LEN + 1,
{
    reveal_strlit("-");
}

proof fn lemma_subdomain_ascii(prefix: Seq<char>, id: Seq<char>)
    requires
        all_ascii(prefix),
        is_uuid(id),
    ensures
        all_ascii(subdomain_of(prefix, id)),
{
    reveal_strlit("-");
    let r = subdomain_of(prefix, id);
    assert forall|i: int| 0 <= i < r.len() implies (#[trigger] r[i]) as u32 <= 0x7f by {
        if id.len() + prefix.len() + 1 <= MAX_LABEL_LEN {
            if i > prefix.len() { assert(is_hex_digit(id[i - prefix.len() - 1])); }
        } else if prefix.len() + MIN_UUID_LEN + 1 > MAX_LABEL_LEN {
            let k = (MAX_LABEL_LEN - MIN_UUID_LEN - 1) as int;
            if i > k { assert(is_hex_digit(id[i - k - 1])); }
        } else {
            if i > prefix.len() { assert(is_hex_digit(id[i - prefix.len() - 1])); }
        }
    }
}

/// Normalises a requested name: every character that is not an ASCII letter or digit
/// becomes a space, and the result is put in kebab case; an empty result
/// becomes the default prefix.
pub fn normalise(name: &str) -> (r: String)
    ensures
        r@ == normalised(name@),
        all_ascii(r@),
{
    let n = name.unicode_len();
    let mut chars: Vec<char> = Vec::new();
    let mut i: usize = 0;
    while i < n
        invariant
            n == name@.len(),
            i <= n,
            chars@ == masked(name@.subrange(0, i as int)),
        decreases n - i,
    {
        let c = name.get_char(i);
        let keep = ('a' <= c && c <= 'z') || ('A' <= c && c <= 'Z') || ('0' <= c && c <= '9');
        chars.push(if keep { c } else { ' ' });
        assert(name@.subrange(0, i + 1) == name@.subrange(0, i as int).push(c));
        i = i + 1;
    }
    assert(name@ == name@.subrange(0, n as int));
    assert(all_ascii(chars@)) by {
        assert forall|i: int| 0 <= i < chars@.len() implies (#[trigger] chars@[i]) as u32 <= 0x7f by {
            assert(chars@[i] == (if is_ascii_alphanumeric(name@[i]) { name@[i] } else { ' ' }));
        }
    }
    let spaced = string_from_chars(&chars);
    let kebab = to_kebab(spaced.as_str());
    if kebab.unicode_len() == 0 {
        proof { reveal_strlit("invalid-rfc1123-connector-name"); }
        String::from_str("invalid-rfc1123-connector-name")
    } else {
        kebab
    }
}

/// A pod name that is a valid subdomain: the normalised `prefix`, a dash, and
/// as much of a random identifier as fits in one label (at least eight digits).
/// The name is ASCII, so its 63 characters are also at most 63 bytes.
pub fn rfc1123_subdomain(prefix: &str) -> (r: String)
    ensures
        exists|id: Seq<char>| is_uuid(id) && r@ == subdomain_of(normalised(prefix@), id),
        r@.len() <= MAX_LABEL_LEN,
        all_ascii(r@),
{
    let id = uuid();
    let p = normalise(prefix);
    let r = subdomain_from(p.as_str(), id.as_str());
    proof {
        lemma_subdomain_fits(p@, id@);
        lemma_subdomain_ascii(p@, id@);
    }
    r
}

} // verus!
