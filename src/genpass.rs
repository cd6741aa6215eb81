use rand::seq::SliceRandom;
use vstd::prelude::*;
use vstd::utf8::*;

verus! {

/// An upper-case ASCII letter.
pub open spec fn is_upper(c: u8) -> bool {
    65 <= c <= 90
}

/// A lower-case ASCII letter.
pub open spec fn is_lower(c: u8) -> bool {
    97 <= c <= 122
}

/// An ASCII digit.
pub open spec fn is_digit(c: u8) -> bool {
    48 <= c <= 57
}

/// A printable ASCII character that is neither a letter, a digit nor a space.
pub open spec fn is_symbol(c: u8) -> bool {
    (33 <= c <= 47) || (58 <= c <= 64) || (91 <= c <= 96) || (123 <= c <= 126)
}

/// Whether a byte belongs to one of the selected character classes.
pub open spec fn allowed(c: u8, upper: bool, lower: bool, number: bool, symbol: bool) -> bool {
    (upper && is_upper(c)) || (lower && is_lower(c)) || (number && is_digit(c)) || (symbol
        && is_symbol(c))
}

/// How many character classes are selected.
pub open spec fn class_count(upper: bool, lower: bool, number: bool, symbol: bool) -> nat {
    (if upper { 1nat } else { 0nat }) + (if lower { 1nat } else { 0nat }) + (if number { 1nat } else { 0nat }) + (if symbol { 1nat } else { 0nat })
}

/// The bytes of a password: one character of each selected class, then
/// `length - 4` more from all selected classes, in any order.
pub open spec fn is_password(
    p: Seq<u8>,
    length: u8,
    upper: bool,
    lower: bool,
    number: bool,
    symbol: bool,
) -> bool {
    &&& p.len() == class_count(upper, lower, number, symbol) + length - 4
    &&& forall|i: int| 0 <= i < p.len() ==> allowed(#[trigger] p[i], upper, lower, number, symbol)
    &&& upper ==> exists|i: int| 0 <= i < p.len() && is_upper(#[trigger] p[i])
    &&& lower ==> exists|i: int| 0 <= i < p.len() && is_lower(#[trigger] p[i])
    &&& number ==> exists|i: int| 0 <= i < p.len() && is_digit(#[trigger] p[i])
    &&& symbol ==> exists|i: int| 0 <= i < p.len() && is_symbol(#[trigger] p[i])
}

/// The characters of ASCII bytes.
pub open spec fn ascii_chars(b: Seq<u8>) -> Seq<char> {
    b.map_values(|x: u8| x as char)
}

/// std's error of `String::from_utf8`, carried opaquely.
#[verifier::external_type_specification]
#[verifier::external_body]
pub struct ExFromUtf8Error(std::string::FromUtf8Error);

/// Relies on `SliceRandom::choose` of rand over the thread's generator: one
/// element of a non-empty slice.
#[verifier::external_body]
fn choose_byte(pool: &[u8]) -> (r: Option<u8>)
    ensures
        pool@.len() > 0 ==> r is Some,
        r matches Some(c) ==> pool@.contains(c),
{
    pool.choose(&mut rand::thread_rng()).copied()
}

/// Relies on `SliceRandom::shuffle` of rand over the thread's generator: a
/// permutation of the elements.
#[verifier::external_body]
fn shuffle_bytes(v: &mut Vec<u8>)
    ensures
        final(v)@.to_multiset() == old(v)@.to_multiset(),
{
    v.shuffle(&mut rand::thread_rng())
}

/// Relies on `String::from_utf8`: it succeeds exactly on valid UTF-8 and
/// keeps the characters that the bytes encode.
#[verifier::external_body]
pub(crate) fn utf8_string(b: Vec<u8>) -> (r: Result<String, std::string::FromUtf8Error>)
    ensures
        r is Ok <==> valid_utf8(b@),
        r matches Ok(s) ==> s@ == decode_utf8(b@),
{
    String::from_utf8(b)
}

/// Relies on `zxcvbn::zxcvbn` and `Entropy::score`: a score from 0 to 4, and
/// none for an empty password or where the estimator fails.
#[verifier::external_body]
fn strength_score(p: &str) -> (r: Option<u8>)
    ensures
        r matches Some(s) ==> s <= 4,
        p@.len() == 0 ==> r is None,
{
    zxcvbn::zxcvbn(p, &[]).ok().map(|e| e.score())
}

/// Appends the bytes `lo..=hi` to a pool.
fn push_range(pool: &mut Vec<u8>, lo: u8, hi: u8)
    requires
        lo <= hi,
        old(pool)@.len() + 256 <= usize::MAX,
    ensures
        final(pool)@.len() == old(pool)@.len() + (hi - lo + 1),
        forall|c: u8| #[trigger] final(pool)@.contains(c) <==> (old(pool)@.contains(c) || (lo <= c <= hi)),
{
    let ghost start = pool@;
    let mut c: u16 = lo as u16;
    while c <= hi as u16
        invariant
            lo <= c <= hi + 1,
            pool@.len() == start.len() + (c - lo),
            pool@.subrange(0, start.len() as int) == start,
            forall|i: int| start.len() <= i < pool@.len() ==> lo <= #[trigger] pool@[i] < c,
            forall|x: u8| lo <= x < c ==> #[trigger] pool@.contains(x),
        decreases hi + 1 - c,
    {
        let ghost before = pool@;
        pool.push(c as u8);
        assert(pool@ == before.push(c as u8));
        assert(pool@.subrange(0, start.len() as int) =~= start);
        assert forall|x: u8| lo <= x < c + 1 implies #[trigger] pool@.contains(x) by {
            if x < c {
                assert(before.contains(x));
                let i = choose|i: int| 0 <= i < before.len() && before[i] == x;
                assert(pool@[i] == x);
            } else {
                assert(pool@[pool@.len() - 1] == x);
            }
        }
        c = c + 1;
    }
    assert forall|x: u8| #[trigger] pool@.contains(x) implies (start.contains(x) || (lo <= x <= hi)) by {
        let i = choose|i: int| 0 <= i < pool@.len() && pool@[i] == x;
        if i < start.len() {
            assert(start[i] == pool@.subrange(0, start.len() as int)[i]);
        }
    }
    assert forall|x: u8| start.contains(x) implies #[trigger] pool@.contains(x) by {
        let i = choose|i: int| 0 <= i < start.len() && start[i] == x;
        assert(pool@.subrange(0, start.len() as int)[i] == pool@[i]);
    }
}

/// Adds one class to the pool and one random character of it to the password.
fn add_class(pool: &mut Vec<u8>, password: &mut Vec<u8>, class: &Vec<u8>)
    requires
        class@.len() > 0,
        old(pool)@.len() + class@.len() <= usize::MAX,
    ensures
        final(pool)@ == old(pool)@ + class@,
        forall|x: u8| #[trigger] final(pool)@.contains(x) <==> (old(pool)@.contains(x) || class@.contains(x)),
        final(password)@.len() == old(password)@.len() + 1,
        final(password)@.subrange(0, old(password)@.len() as int) == old(password)@,
        class@.contains(final(password)@.last()),
{
    let mut copy = class.clone();
    pool.append(&mut copy);
    let c = match choose_byte(class.as_slice()) {
        Some(c) => c,
        None => class[0],
    };
    password.push(c);
    assert(password@.subrange(0, old(password)@.len() as int) =~= old(password)@);
    let ghost a = old(pool)@;
    let ghost b = class@;
    assert forall|x: u8| #[trigger] pool@.contains(x) <==> (a.contains(x) || b.contains(x)) by {
        if pool@.contains(x) {
            let i = choose|i: int| 0 <= i < pool@.len() && pool@[i] == x;
            if i >= a.len() {
                assert(b[i - a.len()] == x);
            }
        }
        if a.contains(x) {
            let i = choose|i: int| 0 <= i < a.len() && a[i] == x;
            assert(pool@[i] == x);
        }
        if b.contains(x) {
            let i = choose|i: int| 0 <= i < b.len() && b[i] == x;
            assert(pool@[a.len() + i] == x);
        }
    }
}

/// The bytes of one class: the range `lo..=hi`.
fn class_range(lo: u8, hi: u8) -> (r: Vec<u8>)
    requires
        lo <= hi,
    ensures
        r@.len() == hi - lo + 1,
        forall|c: u8| #[trigger] r@.contains(c) <==> lo <= c <= hi,
{
    let mut r: Vec<u8> = Vec::new();
    push_range(&mut r, lo, hi);
    r
}

/// The symbol class: every printable ASCII character that is neither a
/// letter, a digit nor a space.
fn symbols() -> (r: Vec<u8>)
    ensures
        r@.len() == 32,
        forall|c: u8| #[trigger] r@.contains(c) <==> is_symbol(c),
{
    let mut r: Vec<u8> = Vec::new();
    push_range(&mut r, 33, 47);
    push_range(&mut r, 58, 64);
    push_range(&mut r, 91, 96);
    push_range(&mut r, 123, 126);
    r
}

/// Keeps a property of an element across a permutation.
proof fn lemma_permuted_holds(a: Seq<u8>, b: Seq<u8>, i: int)
    requires
        a.to_multiset() == b.to_multiset(),
        0 <= i < a.len(),
    ensures
        b.contains(a[i]),
{
    broadcast use vstd::seq_lib::group_to_multiset_ensures;

    assert(a.contains(a[i]));
    assert(a.to_multiset().count(a[i]) > 0);
}

/// Appends one character of a class to the password and keeps the witnesses
/// of the classes already present.
proof fn lemma_prefix_kept(before: Seq<u8>, after: Seq<u8>, w: int)
    requires
        after.subrange(0, before.len() as int) == before,
        before.len() <= after.len(),
        0 <= w < before.len(),
    ensures
        after[w] == before[w],
{
    assert(after.subrange(0, before.len() as int)[w] == after[w]);
}

/// The bytes of a random password: one character of each selected class,
/// then `length - 4` more drawn from all selected classes, shuffled.
pub fn password_bytes(length: u8, upper: bool, lower: bool, number: bool, symbol: bool) -> (r: Vec<u8>)
    requires
        length >= 4,
        length > 4 ==> (upper || lower || number || symbol),
    ensures
        is_password(r@, length, upper, lower, number, symbol),
{
    let mut pool: Vec<u8> = Vec::new();
    let mut password: Vec<u8> = Vec::new();
    let ghost mut wu: int = 0;
    let ghost mut wl: int = 0;
    let ghost mut wd: int = 0;
    let ghost mut ws: int = 0;
    if upper {
        add_class(&mut pool, &mut password, &class_range(65, 90));
        proof { wu = password@.len() - 1; }
    }
    let ghost p1 = password@;
    if lower {
        add_class(&mut pool, &mut password, &class_range(97, 122));
        proof {
            wl = password@.len() - 1;
            if upper { lemma_prefix_kept(p1, password@, wu); }
        }
    }
    let ghost p2 = password@;
    if number {
        add_class(&mut pool, &mut password, &class_range(48, 57));
        proof {
            wd = password@.len() - 1;
            if upper { lemma_prefix_kept(p2, password@, wu); }
            if lower { lemma_prefix_kept(p2, password@, wl); }
        }
    }
    let ghost p3 = password@;
    if symbol {
        add_class(&mut pool, &mut password, &symbols());
        proof {
            ws = password@.len() - 1;
            if upper { lemma_prefix_kept(p3, password@, wu); }
            if lower { lemma_prefix_kept(p3, password@, wl); }
            if number { lemma_prefix_kept(p3, password@, wd); }
        }
    }
    assert(password@.len() == class_count(upper, lower, number, symbol));
    assert forall|x: u8| #[trigger] pool@.contains(x) <==> allowed(x, upper, lower, number, symbol) by {
        assert(!Seq::<u8>::empty().contains(x));
    }
    let ghost base = password@;
    let extra: u8 = length - 4;
    let mut i: u8 = 0;
    while i < extra
        invariant
            0 <= i <= extra,
            extra == length - 4,
            length > 4 ==> (upper || lower || number || symbol),
            base.len() == class_count(upper, lower, number, symbol),
            password@.len() == base.len() + i,
            password@.subrange(0, base.len() as int) == base,
            forall|x: u8| #[trigger] pool@.contains(x) <==> allowed(x, upper, lower, number, symbol),
            forall|j: int| 0 <= j < password@.len() ==> allowed(#[trigger] password@[j], upper, lower, number, symbol),
            upper ==> 0 <= wu < base.len() && is_upper(base[wu]),
            lower ==> 0 <= wl < base.len() && is_lower(base[wl]),
            number ==> 0 <= wd < base.len() && is_digit(base[wd]),
            symbol ==> 0 <= ws < base.len() && is_symbol(base[ws]),
        decreases extra - i,
    {
        let ghost before = password@;
        assert(pool@.len() > 0) by {
            if upper { assert(pool@.contains(65)); }
            else if lower { assert(pool@.contains(97)); }
            else if number { assert(pool@.contains(48)); }
            else { assert(pool@.contains(33)); }
        }
        assert(pool@.contains(pool@[0]));
        let c = match choose_byte(pool.as_slice()) {
            Some(c) => c,
            None => pool[0],
        };
        password.push(c);
        assert(password@.subrange(0, base.len() as int) =~= base) by {
            assert(password@.subrange(0, base.len() as int) =~= before.subrange(0, base.len() as int));
        }
        i = i + 1;
    }
    proof {
        if upper { lemma_prefix_kept(base, password@, wu); }
        if lower { lemma_prefix_kept(base, password@, wl); }
        if number { lemma_prefix_kept(base, password@, wd); }
        if symbol { lemma_prefix_kept(base, password@, ws); }
    }
    let ghost drawn = password@;
    shuffle_bytes(&mut password);
    proof {
        broadcast use vstd::seq_lib::group_to_multiset_ensures;

        let p = password@;
        assert(p.len() == drawn.len()) by {
            assert(p.to_multiset().len() == drawn.to_multiset().len());
        }
        assert forall|j: int| 0 <= j < p.len() implies allowed(#[trigger] p[j], upper, lower, number, symbol) by {
            lemma_permuted_holds(p, drawn, j);
        }
        if upper { lemma_permuted_holds(drawn, p, wu); }
        if lower { lemma_permuted_holds(drawn, p, wl); }
        if number { lemma_permuted_holds(drawn, p, wd); }
        if symbol { lemma_permuted_holds(drawn, p, ws); }
    }
    password
}

/// The bytes of a text whose characters are all below 256.
pub open spec fn text_bytes(t: Seq<char>) -> Seq<u8> {
    t.map_values(|c: char| c as u8)
}

/// ASCII bytes are valid UTF-8 and encode one character each.
proof fn lemma_ascii_decode(b: Seq<u8>)
    requires
        forall|i: int| 0 <= i < b.len() ==> #[trigger] b[i] < 128,
    ensures
        valid_utf8(b),
        decode_utf8(b) == ascii_chars(b),
        text_bytes(ascii_chars(b)) == b,
{
    let c = ascii_chars(b);
    assert(is_ascii_chars(c));
    is_ascii_chars_encode_utf8(c);
    assert(encode_utf8(c) =~= b);
    encode_utf8_valid_utf8(c);
    encode_utf8_decode_utf8(c);
    assert(text_bytes(c) =~= b);
}

/// Generates a random password of printable ASCII characters: one of each
/// selected class, then `length - 4` more from all selected classes.
pub fn process_genpass(length: u8, upper: bool, lower: bool, number: bool, symbol: bool) -> (r: String)
    requires
        length >= 4,
        length > 4 ==> (upper || lower || number || symbol),
    ensures
        is_password(text_bytes(r@), length, upper, lower, number, symbol),
        r@ == ascii_chars(text_bytes(r@)),
{
    let b = password_bytes(length, upper, lower, number, symbol);
    let ghost bytes = b@;
    proof {
        assert forall|i: int| 0 <= i < bytes.len() implies #[trigger] bytes[i] < 128 by {
            assert(allowed(bytes[i], upper, lower, number, symbol));
        }
        lemma_ascii_decode(bytes);
    }
    match utf8_string(b) {
        Ok(s) => s,
        Err(_) => String::new(),
    }
}

/// The options of password generation.
pub struct GenPassOpts {
    pub length: u8,
    pub uppercase: bool,
    pub lowercase: bool,
    pub number: bool,
    pub symbol: bool,
}

impl GenPassOpts {
    /// Whether the options describe a password that can be made.
    pub open spec fn valid(&self) -> bool {
        self.length >= 4 && (self.length > 4 ==> (self.uppercase || self.lowercase || self.number
            || self.symbol))
    }

    /// A new password under these options, with its zxcvbn strength score
    /// from 0 to 4 where the estimator rates it.
    pub fn generate(&self) -> (r: (String, Option<u8>))
        requires
            self.valid(),
        ensures
            is_password(text_bytes(r.0@), self.length, self.uppercase, self.lowercase, self.number, self.symbol),
            r.0@ == ascii_chars(text_bytes(r.0@)),
            r.0@.len() == 0 ==> r.1 is None,
            r.1 matches Some(s) ==> s <= 4,
    {
        let p = process_genpass(self.length, self.uppercase, self.lowercase, self.number, self.symbol);
        let score = strength_score(p.as_str());
        (p, score)
    }
}

} // verus!
