use vstd::prelude::*;
use vstd::string::{StrSliceExecFns, StringExecFns};
use vstd::utf8::{decode_utf8, is_ascii_chars, valid_utf8};
use rand::rngs::ThreadRng;
use rand::seq::SliceRandom;
use std::string::FromUtf8Error;
use zxcvbn::ZxcvbnError;

verus! {

/// What a generated password must look like.
pub struct GenPassOpt {
    pub uppercase: bool,
    pub lowercase: bool,
    pub number: bool,
    pub symbol: bool,
    pub length: u8,
}

/// Upper-case letters, without the easily misread `I` and `O`.
pub open spec fn upper() -> Seq<char> {
    "ABCDEFGHJKLMNPQRSTUVWXYZ"@
}

/// Lower-case letters, without the easily misread `l` and `o`.
pub open spec fn lower() -> Seq<char> {
    "abcdefghijkmnpqrstuvwxyz"@
}

/// Digits.
pub open spec fn digits() -> Seq<char> {
    "0123456789"@
}

/// Punctuation.
pub open spec fn symbols() -> Seq<char> {
    "!@#$%^&*()_"@
}

/// `pool` if `wanted`, and nothing otherwise.
pub open spec fn pool_if(wanted: bool, pool: Seq<char>) -> Seq<char> {
    if wanted {
        pool
    } else {
        Seq::empty()
    }
}

/// Whether some item of `text` is in `pool`.
pub open spec fn touches<T>(text: Seq<T>, pool: Seq<T>) -> bool {
    exists|i: int| 0 <= i < text.len() && pool.contains(#[trigger] text[i])
}

/// Whether every item of `text` is in `pool`.
pub open spec fn within<T>(text: Seq<T>, pool: Seq<T>) -> bool {
    forall|i: int| 0 <= i < text.len() ==> pool.contains(#[trigger] text[i])
}

/// The bytes of an ASCII text, one for each character.
pub open spec fn bytes_of(text: Seq<char>) -> Seq<u8> {
    Seq::new(text.len(), |i: int| text[i] as u8)
}

/// The text of ASCII bytes, one character for each.
pub open spec fn text_of(bytes: Seq<u8>) -> Seq<char> {
    Seq::new(bytes.len(), |i: int| bytes[i] as char)
}

impl GenPassOpt {
    /// How many character classes are asked for.
    pub open spec fn classes(&self) -> nat {
        (if self.uppercase { 1nat } else { 0 }) + (if self.lowercase { 1nat } else { 0 })
            + (if self.number { 1nat } else { 0 }) + (if self.symbol { 1nat } else { 0 })
    }

    /// Every character that a password for these options may hold.
    pub open spec fn alphabet(&self) -> Seq<char> {
        pool_if(self.uppercase, upper()) + pool_if(self.lowercase, lower()) + pool_if(
            self.number,
            digits(),
        ) + pool_if(self.symbol, symbols())
    }

    /// Whether any password can meet these options: it must have room for
    /// one character of each class asked for, and a class to fill the rest
    /// from.
    pub open spec fn satisfiable(&self) -> bool {
        self.classes() <= self.length && (self.length > 0 ==> self.classes() > 0)
    }

    /// Whether `password` meets these options: the length asked for, only
    /// characters of the classes asked for, and at least one of each.
    pub open spec fn admits(&self, password: Seq<char>) -> bool {
        &&& password.len() == self.length
        &&& within(password, self.alphabet())
        &&& self.uppercase ==> touches(password, upper())
        &&& self.lowercase ==> touches(password, lower())
        &&& self.number ==> touches(password, digits())
        &&& self.symbol ==> touches(password, symbols())
    }

    /// Tests whether any password can meet these options.
    pub fn is_satisfiable(&self) -> (ok: bool)
        ensures
            ok == self.satisfiable(),
    {
        let mut classes: u8 = 0;
        if self.uppercase {
            classes += 1;
        }
        if self.lowercase {
            classes += 1;
        }
        if self.number {
            classes += 1;
        }
        if self.symbol {
            classes += 1;
        }
        classes <= self.length && (self.length == 0 || classes > 0)
    }
}

#[verifier::external_type_specification]
#[verifier::external_body]
pub struct ExThreadRng(ThreadRng);

#[verifier::external_type_specification]
#[verifier::external_body]
pub struct ExFromUtf8Error(FromUtf8Error);

/// `rand::thread_rng`: a handle to this thread's random generator.
#[verifier::external_body]
fn thread_rng() -> (rng: ThreadRng) {
    rand::thread_rng()
}

/// `SliceRandom::choose` on a slice of bytes: an element of the slice, the
/// generator deciding which, or nothing where the slice is empty.
#[verifier::external_body]
fn pick(pool: &[u8], rng: &mut ThreadRng) -> (picked: Option<u8>)
    ensures
        pool@.len() == 0 ==> picked is None,
        pool@.len() > 0 ==> picked is Some && pool@.contains(picked->Some_0),
{
    pool.choose(rng).copied()
}

/// `SliceRandom::shuffle`: reorders the items in place, the generator
/// deciding how. The items themselves stay, each as often as before.
#[verifier::external_body]
fn shuffle(items: &mut Vec<u8>, rng: &mut ThreadRng)
    ensures
        final(items)@.to_multiset() == old(items)@.to_multiset(),
{
    items.shuffle(rng)
}

/// `String::from_utf8`: the text that the bytes encode, or an error where
/// they are not UTF-8.
#[verifier::external_body]
fn string_from_utf8(bytes: Vec<u8>) -> (r: Result<String, FromUtf8Error>)
    ensures
        match r {
            Ok(text) => valid_utf8(bytes@) && text@ == decode_utf8(bytes@),
            Err(_) => !valid_utf8(bytes@),
        },
{
    String::from_utf8(bytes)
}

/// Reading ASCII bytes as text keeps what they were drawn from: bytes that
/// all lie in the bytes of `pool` give characters that all lie in `pool`,
/// and a byte in the bytes of `pool` gives a character in `pool`.
proof fn lemma_text_keeps_pool(bytes: Seq<u8>, pool: Seq<char>)
    requires
        is_ascii_chars(pool),
    ensures
        within(bytes, bytes_of(pool)) ==> within(text_of(bytes), pool),
        touches(bytes, bytes_of(pool)) ==> touches(text_of(bytes), pool),
{
    let text = text_of(bytes);
    let raw = bytes_of(pool);
    assert forall|i: int| 0 <= i < bytes.len() && raw.contains(bytes[i]) implies pool.contains(
        #[trigger] text[i],
    ) by {
        let k = choose|k: int| 0 <= k < raw.len() && raw[k] == bytes[i];
        assert('\0' <= pool[k] <= '\u{7f}');
        assert(pool[k] == text[i]);
    }
    if touches(bytes, raw) {
        let i = choose|i: int| 0 <= i < bytes.len() && raw.contains(#[trigger] bytes[i]);
        assert(pool.contains(text[i]));
    }
}

/// ASCII bytes are UTF-8, and decode to one character for each byte.
proof fn lemma_ascii_decodes(bytes: Seq<u8>)
    requires
        forall|i: int| 0 <= i < bytes.len() ==> bytes[i] < 128,
    ensures
        valid_utf8(bytes),
        decode_utf8(bytes) == text_of(bytes),
{
    broadcast use vstd::utf8::group_utf8_lib;

    let text = text_of(bytes);
    assert forall|i: int| 0 <= i < text.len() implies '\0' <= #[trigger] text[i] <= '\u{7f}' by {
        assert(bytes[i] < 128);
    }
    assert(is_ascii_chars(text));
    assert(vstd::utf8::encode_utf8(text) =~= bytes) by {
        assert forall|i: int| 0 <= i < text.len() implies text[i] as u8 == bytes[i] by {
            assert(bytes[i] < 128);
        }
    }
}

/// A reordering keeps what the items were drawn from.
proof fn lemma_reorder_keeps_pool(before: Seq<u8>, after: Seq<u8>, pool: Seq<u8>)
    requires
        before.to_multiset() == after.to_multiset(),
    ensures
        within(before, pool) ==> within(after, pool),
        touches(before, pool) ==> touches(after, pool),
        before.len() == after.len(),
{
    broadcast use vstd::seq_lib::to_multiset_len, vstd::seq_lib::to_multiset_contains;

    assert(before.len() == before.to_multiset().len());
    assert(after.len() == after.to_multiset().len());
    if within(before, pool) {
        assert forall|j: int| 0 <= j < after.len() implies pool.contains(#[trigger] after[j]) by {
            assert(after.contains(after[j]));
            assert(after.to_multiset().count(after[j]) > 0);
            assert(before.contains(after[j]));
            let i = choose|i: int| 0 <= i < before.len() && before[i] == after[j];
            assert(pool.contains(before[i]));
        }
    }
    if touches(before, pool) {
        let i = choose|i: int| 0 <= i < before.len() && pool.contains(#[trigger] before[i]);
        assert(before.contains(before[i]));
        assert(before.to_multiset().count(before[i]) > 0);
        assert(after.contains(before[i]));
        let j = choose|j: int| 0 <= j < after.len() && after[j] == before[i];
        assert(pool.contains(after[j]));
    }
}

/// Opens the character class `pool`: its bytes join the alphabet, and one of
/// them, picked at random, joins the password.
fn take_class(pool: &str, alphabet: &mut Vec<u8>, password: &mut Vec<u8>, rng: &mut ThreadRng)
    requires
        is_ascii_chars(pool@),
        pool@.len() > 0,
    ensures
        final(alphabet)@ == old(alphabet)@ + bytes_of(pool@),
        final(password)@.len() == old(password)@.len() + 1,
        final(password)@.drop_last() == old(password)@,
        bytes_of(pool@).contains(final(password)@.last()),
{
    broadcast use vstd::string::is_ascii_spec_bytes;

    let raw = pool.as_bytes();
    assert(pool.is_ascii());
    assert(raw@ =~= bytes_of(pool@));
    let ghost alphabet_before = alphabet@;
    let ghost password_before = password@;
    alphabet.extend_from_slice(raw);
    assert(alphabet@ =~= alphabet_before + bytes_of(pool@));
    let c = pick(raw, rng).unwrap();
    password.push(c);
    assert(password@.drop_last() =~= password_before);
}

/// Every class holds ASCII characters only, and at least one.
pub proof fn lemma_pools_ascii()
    ensures
        is_ascii_chars(upper()) && upper().len() > 0,
        is_ascii_chars(lower()) && lower().len() > 0,
        is_ascii_chars(digits()) && digits().len() > 0,
        is_ascii_chars(symbols()) && symbols().len() > 0,
{
    reveal_strlit("ABCDEFGHJKLMNPQRSTUVWXYZ");
    reveal_strlit("abcdefghijkmnpqrstuvwxyz");
    reveal_strlit("0123456789");
    reveal_strlit("!@#$%^&*()_");
}

/// The upper-case letters, and that they are ASCII.
fn upper_pool() -> (pool: &'static str)
    ensures
        pool@ == upper(),
        is_ascii_chars(pool@),
        pool@.len() > 0,
{
    proof {
        lemma_pools_ascii();
    }
    "ABCDEFGHJKLMNPQRSTUVWXYZ"
}

/// The lower-case letters, and that they are ASCII.
fn lower_pool() -> (pool: &'static str)
    ensures
        pool@ == lower(),
        is_ascii_chars(pool@),
        pool@.len() > 0,
{
    proof {
        lemma_pools_ascii();
    }
    "abcdefghijkmnpqrstuvwxyz"
}

/// The digits, and that they are ASCII.
fn digit_pool() -> (pool: &'static str)
    ensures
        pool@ == digits(),
        is_ascii_chars(pool@),
        pool@.len() > 0,
{
    proof {
        lemma_pools_ascii();
    }
    "0123456789"
}

/// The punctuation, and that it is ASCII.
fn symbol_pool() -> (pool: &'static str)
    ensures
        pool@ == symbols(),
        is_ascii_chars(pool@),
        pool@.len() > 0,
{
    proof {
        lemma_pools_ascii();
    }
    "!@#$%^&*()_"
}

/// Whether `bytes` are drawn as `opts` asks, whatever their number: all of
/// them from the alphabet, and at least one from each class asked for.
pub open spec fn drawn(opts: GenPassOpt, bytes: Seq<u8>) -> bool {
    &&& within(bytes, bytes_of(opts.alphabet()))
    &&& opts.uppercase ==> touches(bytes, bytes_of(upper()))
    &&& opts.lowercase ==> touches(bytes, bytes_of(lower()))
    &&& opts.number ==> touches(bytes, bytes_of(digits()))
    &&& opts.symbol ==> touches(bytes, bytes_of(symbols()))
}

/// More items at the end keep what the earlier ones touch, and the grown
/// password stays within an alphabet that holds the new items too.
proof fn lemma_extend(password: Seq<u8>, grown: Seq<u8>, alphabet: Seq<u8>, wider: Seq<u8>)
    requires
        within(password, alphabet),
        password.len() <= grown.len(),
        grown.subrange(0, password.len() as int) == password,
        forall|x: u8| alphabet.contains(x) ==> wider.contains(x),
        forall|i: int| password.len() <= i < grown.len() ==> wider.contains(#[trigger] grown[i]),
    ensures
        within(grown, wider),
        forall|pool: Seq<u8>| #[trigger] touches(password, pool) ==> touches(grown, pool),
{
    assert forall|i: int| 0 <= i < password.len() implies grown[i] == password[i] by {
        assert(grown.subrange(0, password.len() as int)[i] == grown[i]);
    }
    assert forall|i: int| 0 <= i < grown.len() implies wider.contains(#[trigger] grown[i]) by {
        if i < password.len() {
            assert(alphabet.contains(password[i]));
        }
    }
    assert forall|pool: Seq<u8>| #[trigger] touches(password, pool) implies touches(
        grown,
        pool,
    ) by {
        let i = choose|i: int| 0 <= i < password.len() && pool.contains(#[trigger] password[i]);
        assert(pool.contains(grown[i]));
    }
}

/// What either of two byte strings holds, their concatenation holds.
proof fn lemma_concat_contains(a: Seq<u8>, b: Seq<u8>)
    ensures
        forall|x: u8| a.contains(x) ==> #[trigger] (a + b).contains(x),
        forall|x: u8| b.contains(x) ==> #[trigger] (a + b).contains(x),
{
    assert forall|x: u8| a.contains(x) implies #[trigger] (a + b).contains(x) by {
        let k = choose|k: int| 0 <= k < a.len() && a[k] == x;
        assert((a + b)[k] == x);
    }
    assert forall|x: u8| b.contains(x) implies #[trigger] (a + b).contains(x) by {
        let k = choose|k: int| 0 <= k < b.len() && b[k] == x;
        assert((a + b)[a.len() + k] == x);
    }
}

/// The step that `take_class` makes, seen from the password: it stays
/// within the grown alphabet, touches the new class, and touches what it
/// touched before.
proof fn lemma_class_taken(password: Seq<u8>, grown: Seq<u8>, alphabet: Seq<u8>, pool: Seq<u8>)
    requires
        within(password, alphabet),
        grown.len() == password.len() + 1,
        grown.drop_last() == password,
        pool.contains(grown.last()),
    ensures
        within(grown, alphabet + pool),
        touches(grown, pool),
        forall|other: Seq<u8>| #[trigger] touches(password, other) ==> touches(grown, other),
{
    lemma_concat_contains(alphabet, pool);
    assert(grown.subrange(0, password.len() as int) =~= grown.drop_last());
    lemma_extend(password, grown, alphabet, alphabet + pool);
    assert(pool.contains(grown[grown.len() - 1]));
}

/// The bytes of two texts, one after the other, are the bytes of the texts
/// joined.
proof fn lemma_bytes_of_concat(a: Seq<char>, b: Seq<char>)
    ensures
        bytes_of(a + b) == bytes_of(a) + bytes_of(b),
{
    assert(bytes_of(a + b) =~= bytes_of(a) + bytes_of(b));
}

/// Opens the class `pool` where it is `wanted`, and leaves all as it is
/// where it is not.
fn take_class_if(
    wanted: bool,
    pool: &str,
    alphabet: &mut Vec<u8>,
    password: &mut Vec<u8>,
    rng: &mut ThreadRng,
)
    requires
        is_ascii_chars(pool@),
        pool@.len() > 0,
        within(old(password)@, old(alphabet)@),
    ensures
        final(alphabet)@ == old(alphabet)@ + bytes_of(pool_if(wanted, pool@)),
        final(password)@.len() == old(password)@.len() + if wanted { 1nat } else { 0nat },
        within(final(password)@, final(alphabet)@),
        wanted ==> touches(final(password)@, bytes_of(pool@)),
        forall|other: Seq<u8>| #[trigger]
            touches(old(password)@, other) ==> touches(final(password)@, other),
{
    let ghost password_before = password@;
    let ghost alphabet_before = alphabet@;
    if wanted {
        take_class(pool, alphabet, password, rng);
        proof {
            lemma_class_taken(password_before, password@, alphabet_before, bytes_of(pool@));
        }
    } else {
        assert(alphabet@ =~= alphabet_before + bytes_of(Seq::<char>::empty()));
    }
}

/// Opens every class that `opts` asks for: returns the alphabet and a
/// password of one random character from each class.
fn seed_classes(opts: &GenPassOpt, rng: &mut ThreadRng) -> (r: (Vec<u8>, Vec<u8>))
    ensures
        r.0@ == bytes_of(opts.alphabet()),
        r.1@.len() == opts.classes(),
        drawn(*opts, r.1@),
{
    let mut password: Vec<u8> = Vec::new();
    let mut chars: Vec<u8> = Vec::new();
    let ghost u = pool_if(opts.uppercase, upper());
    let ghost l = pool_if(opts.lowercase, lower());
    let ghost n = pool_if(opts.number, digits());
    let ghost s = pool_if(opts.symbol, symbols());
    take_class_if(opts.uppercase, upper_pool(), &mut chars, &mut password, rng);
    take_class_if(opts.lowercase, lower_pool(), &mut chars, &mut password, rng);
    take_class_if(opts.number, digit_pool(), &mut chars, &mut password, rng);
    take_class_if(opts.symbol, symbol_pool(), &mut chars, &mut password, rng);
    proof {
        let empty = Seq::<u8>::empty();
        assert(chars@ == empty + bytes_of(u) + bytes_of(l) + bytes_of(n) + bytes_of(s));
        assert(empty + bytes_of(u) =~= bytes_of(u));
        lemma_bytes_of_concat(u, l);
        lemma_bytes_of_concat(u + l, n);
        lemma_bytes_of_concat(u + l + n, s);
    }
    (chars, password)
}

/// Draws items of `alphabet` at random until `password` has `length` of them.
fn fill(alphabet: &Vec<u8>, password: &mut Vec<u8>, length: usize, rng: &mut ThreadRng)
    requires
        old(password)@.len() <= length,
        old(password)@.len() < length ==> alphabet@.len() > 0,
    ensures
        final(password)@.len() == length,
        final(password)@.subrange(0, old(password)@.len() as int) == old(password)@,
        forall|i: int|
            old(password)@.len() <= i < length ==> alphabet@.contains(#[trigger] final(password)@[i]),
{
    let ghost start = password@;
    while password.len() < length
        invariant
            start.len() <= password@.len() <= length,
            start.len() < length ==> alphabet@.len() > 0,
            password@.subrange(0, start.len() as int) == start,
            forall|i: int|
                start.len() <= i < password@.len() ==> alphabet@.contains(#[trigger] password@[i]),
        decreases length - password@.len(),
    {
        let ghost before = password@;
        let c = pick(alphabet.as_slice(), rng).unwrap();
        password.push(c);
        assert(password@.subrange(0, start.len() as int) =~= before.subrange(
            0,
            start.len() as int,
        ));
    }
}

/// The bytes of a password that is drawn as `opts` asks are ASCII, and read
/// as text they are a password that `opts` admits.
proof fn lemma_drawn_admitted(opts: GenPassOpt, bytes: Seq<u8>)
    requires
        drawn(opts, bytes),
        bytes.len() == opts.length,
    ensures
        valid_utf8(bytes),
        opts.admits(decode_utf8(bytes)),
{
    lemma_pools_ascii();
    assert(is_ascii_chars(opts.alphabet()));
    lemma_text_keeps_pool(bytes, opts.alphabet());
    lemma_text_keeps_pool(bytes, upper());
    lemma_text_keeps_pool(bytes, lower());
    lemma_text_keeps_pool(bytes, digits());
    lemma_text_keeps_pool(bytes, symbols());
    assert forall|i: int| 0 <= i < bytes.len() implies bytes[i] < 128 by {
        let raw = bytes_of(opts.alphabet());
        assert(raw.contains(bytes[i]));
        let k = choose|k: int| 0 <= k < raw.len() && raw[k] == bytes[i];
        assert('\0' <= opts.alphabet()[k] <= '\u{7f}');
    }
    lemma_ascii_decodes(bytes);
}

/// Generates a password that meets `opts`: one random character of each
/// class asked for, the rest drawn at random from all those classes, and the
/// whole shuffled.
pub fn process_genpass(opts: GenPassOpt) -> (password: String)
    requires
        opts.satisfiable(),
    ensures
        opts.admits(password@),
{
    let mut rng = thread_rng();
    let (chars, mut password) = seed_classes(&opts, &mut rng);
    let ghost seeded = password@;
    proof {
        lemma_pools_ascii();
    }
    fill(&chars, &mut password, opts.length as usize, &mut rng);
    let ghost filled = password@;
    proof {
        lemma_extend(seeded, filled, chars@, chars@);
    }
    shuffle(&mut password, &mut rng);
    proof {
        let bytes = password@;
        lemma_reorder_keeps_pool(filled, bytes, chars@);
        lemma_reorder_keeps_pool(filled, bytes, bytes_of(upper()));
        lemma_reorder_keeps_pool(filled, bytes, bytes_of(lower()));
        lemma_reorder_keeps_pool(filled, bytes, bytes_of(digits()));
        lemma_reorder_keeps_pool(filled, bytes, bytes_of(symbols()));
        lemma_drawn_admitted(opts, bytes);
    }
    string_from_utf8(password).unwrap()
}

/// The highest score that a password's strength can get.
pub const MAX_STRENGTH: u8 = 4;

/// Why the strength of a password could not be estimated.
#[derive(Debug, Clone, Copy, PartialEq, Eq, Structural)]
pub enum StrengthError {
    /// The password is empty.
    Blank,
    /// The machine's clock, which the estimate reads, gave no usable time.
    Clock,
}

impl StrengthError {
    /// The text of the message for this error.
    pub open spec fn message_spec(&self) -> Seq<char> {
        match self {
            StrengthError::Blank => "Zxcvbn cannot evaluate a blank password"@,
            StrengthError::Clock => "Zxcvbn calculation time created a duration out of range"@,
        }
    }

    /// A message for the user.
    pub fn message(&self) -> (text: String)
        ensures
            text@ == self.message_spec(),
    {
        match self {
            StrengthError::Blank => String::from_str("Zxcvbn cannot evaluate a blank password"),
            StrengthError::Clock => String::from_str(
                "Zxcvbn calculation time created a duration out of range",
            ),
        }
    }
}

/// The greatest number of characters of a password whose strength is
/// estimated. The estimator counts the orderings of as many patterns as the
/// password has characters, in a machine word: twenty fit a word of 64 bits,
/// twelve a smaller one.
pub open spec fn strength_limit() -> nat {
    if usize::BITS >= 64 {
        20
    } else {
        12
    }
}

/// Whether `password` is short enough for its strength to be estimated.
pub open spec fn estimable(password: Seq<char>) -> bool {
    password.len() <= strength_limit()
}

/// Tests whether `password` is short enough for its strength to be
/// estimated.
pub fn is_estimable(password: &str) -> (ok: bool)
    ensures
        ok == estimable(password@),
{
    let limit: usize = if usize::BITS >= 64 {
        20
    } else {
        12
    };
    password.unicode_len() <= limit
}

/// `zxcvbn::zxcvbn` with no user inputs, and `Entropy::score` of what it
/// returns, its two errors told apart.
///
/// Not proved: that an empty password, and no other, is refused as blank,
/// before anything else is looked at, and that a score is one of 0 to 4.
/// The estimate reads the clock and the calendar, so neither a score nor
/// success is claimed for any password. Longer passwords are left out
/// because the estimator's arithmetic is unchecked: on them a factorial or
/// a power can leave its integer type.
#[verifier::external_body]
fn estimate_strength(password: &str) -> (r: Result<u8, StrengthError>)
    requires
        estimable(password@),
    ensures
        (r is Err && r->Err_0 == StrengthError::Blank) <==> password@.len() == 0,
        r is Ok ==> r->Ok_0 <= 4,
{
    match zxcvbn::zxcvbn(password, &[]) {
        Ok(estimate) => Ok(estimate.score()),
        Err(ZxcvbnError::BlankPassword) => Err(StrengthError::Blank),
        Err(ZxcvbnError::DurationOutOfRange) => Err(StrengthError::Clock),
    }
}

/// An estimate of how hard `password` is to guess, from 0 (trivial) to
/// `MAX_STRENGTH`, for a password that is short enough to be estimated. An
/// empty password, and only an empty one, is refused as blank. For any
/// other the estimate either gives a score or fails on the clock; which of
/// the two, and which score, the estimator decides.
pub fn password_strength(password: &str) -> (r: Result<u8, StrengthError>)
    requires
        estimable(password@),
    ensures
        (r is Err && r->Err_0 == StrengthError::Blank) <==> password@.len() == 0,
        password@.len() > 0 ==> (r is Ok && r->Ok_0 <= MAX_STRENGTH) || (r is Err && r->Err_0
            == StrengthError::Clock),
{
    estimate_strength(password)
}

/// The estimate of `password_strength` for a password that is short enough
/// to be estimated, and nothing for a longer one.
pub fn checked_password_strength(password: &str) -> (r: Option<Result<u8, StrengthError>>)
    ensures
        r is Some <==> estimable(password@),
        r is Some ==> ((r->Some_0 is Err && r->Some_0->Err_0 == StrengthError::Blank)
            <==> password@.len() == 0),
        r is Some && password@.len() > 0 ==> (r->Some_0 is Ok && r->Some_0->Ok_0 <= MAX_STRENGTH)
            || (r->Some_0 is Err && r->Some_0->Err_0 == StrengthError::Clock),
{
    if is_estimable(password) {
        Some(password_strength(password))
    } else {
        None
    }
}

} // verus!
