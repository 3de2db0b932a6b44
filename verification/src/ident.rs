//! The identifier by which an instance finds its own node in the document
//! again: made once, on the first render, and kept for as long as the
//! instance lives.
//!
//! Identifiers are a prefix, a hyphen and a random suffix. Nothing checks
//! that two live instances got different suffixes: the suffix is long enough
//! that a collision is not expected, and none is detected.

use rand::distributions::{Alphanumeric, DistString};
use vstd::prelude::*;
use vstd::string::StringExecFns;
use crate::attr::text_of;

verus! {

/// The number of random characters at the end of an identifier.
pub const ID_SUFFIX_LEN: usize = 11;

/// Whether `c` is an ASCII letter or digit.
pub open spec fn is_alphanumeric(c: char) -> bool {
    ('0' <= c && c <= '9') || ('a' <= c && c <= 'z') || ('A' <= c && c <= 'Z')
}

/// Whether every character of `text` is an ASCII letter or digit.
pub open spec fn all_alphanumeric(text: Seq<char>) -> bool {
    forall|k: int| 0 <= k < text.len() ==> is_alphanumeric(#[trigger] text[k])
}

/// The identifier made of `prefix` and `suffix`.
pub open spec fn joined(prefix: Seq<char>, suffix: Seq<char>) -> Seq<char> {
    prefix + seq!['-'] + suffix
}

/// Whether `id` is an identifier that this library could have made for
/// `prefix`: the prefix, a hyphen, and a suffix of the fixed length made of
/// ASCII letters and digits.
pub open spec fn is_instance_id(id: Seq<char>, prefix: Seq<char>) -> bool {
    exists|suffix: Seq<char>|
        #![trigger joined(prefix, suffix)]
        suffix.len() == ID_SUFFIX_LEN && all_alphanumeric(suffix) && id == joined(prefix, suffix)
}

/// Calls `sample_string` of rand's `Alphanumeric` distribution on the thread's
/// generator, `rand::thread_rng()`. The contract claims what the
/// distribution documents: the text has `len` characters, each an ASCII
/// letter or digit. Which ones is left open. The generator is seeded from the
/// operating system on first use; that this seeding succeeds is taken for
/// granted.
#[verifier::external_body]
fn random_alphanumeric(len: usize) -> (text: String)
    ensures
        text@.len() == len,
        all_alphanumeric(text@),
{
    Alphanumeric.sample_string(&mut rand::thread_rng(), len)
}

/// Joins a prefix and a suffix into an identifier.
pub fn instance_id(prefix: &str, suffix: &str) -> (id: String)
    ensures
        id@ == joined(prefix@, suffix@),
{
    proof {
        reveal_strlit("-");
    }
    let mut id = String::from_str(prefix);
    id.append("-");
    id.append(suffix);
    assert(id@ =~= joined(prefix@, suffix@));
    id
}

/// Makes a new identifier for `prefix` with a random suffix.
pub fn fresh_id(prefix: &str) -> (id: String)
    ensures
        is_instance_id(id@, prefix@),
{
    let suffix = random_alphanumeric(ID_SUFFIX_LEN);
    let id = instance_id(prefix, suffix.as_str());
    assert(id@ == joined(prefix@, suffix@));
    id
}

/// The identifier of an instance after a render that found `slot` and had
/// `offered` at hand: the one in the slot, and `offered` only where the slot
/// was empty.
pub open spec fn kept(slot: Option<Seq<char>>, offered: Seq<char>) -> Seq<char> {
    match slot {
        Some(id) => id,
        None => offered,
    }
}

/// Where an instance keeps its identifier between renders. Empty until the
/// first render; never emptied or changed afterwards.
#[derive(Debug)]
pub struct IdSlot {
    id: Option<String>,
}

impl View for IdSlot {
    type V = Option<Seq<char>>;

    closed spec fn view(&self) -> Option<Seq<char>> {
        match self.id {
            Some(id) => Some(id@),
            None => None,
        }
    }
}

/// What a render learns when it asks for the instance's identifier.
#[derive(Debug)]
pub struct IdUse {
    /// The identifier of the instance.
    pub id: String,
    /// Whether the identifier was made just now, so that the instance must be
    /// rendered once more for code that looks the node up by it.
    pub needs_update: bool,
}

impl IdSlot {
    /// An empty slot, as a newly mounted instance has it.
    pub fn new() -> (slot: IdSlot)
        ensures
            slot@ is None,
    {
        IdSlot { id: None }
    }

    /// The identifier in the slot, if one has been made.
    pub fn get(&self) -> (id: Option<String>)
        ensures
            text_of(id) == self@,
    {
        match &self.id {
            Some(id) => Some(id.clone()),
            None => None,
        }
    }

    /// Puts `id` into the slot unless it holds an identifier already, and
    /// says which identifier the instance now has.
    pub fn get_or_store(&mut self, id: String) -> (used: IdUse)
        ensures
            final(self)@ == Some(kept(old(self)@, id@)),
            used.id@ == kept(old(self)@, id@),
            used.needs_update == (old(self)@ is None),
    {
        match &self.id {
            Some(kept) => IdUse { id: kept.clone(), needs_update: false },
            None => {
                self.id = Some(id.clone());
                IdUse { id, needs_update: true }
            },
        }
    }
}

/// Gives the identifier of an instance, making one on the first call.
///
/// On a slot that is still empty a new identifier for `prefix` is made and
/// kept, and the caller is told to render again. On every later call the same
/// identifier comes back, whatever `prefix` is, and no update is asked for.
pub fn use_id(slot: &mut IdSlot, prefix: &str) -> (used: IdUse)
    ensures
        final(slot)@ == Some(used.id@),
        old(slot)@ is Some ==> final(slot)@ == old(slot)@,
        old(slot)@ is None ==> is_instance_id(used.id@, prefix@),
        used.needs_update == (old(slot)@ is None),
{
    match slot.get() {
        Some(id) => IdUse { id, needs_update: false },
        None => slot.get_or_store(fresh_id(prefix)),
    }
}

/// The identifier of an instance is stable: once a render has settled it,
/// every later render finds it again, whatever new identifier it has at hand.
pub proof fn lemma_id_is_stable(slot: Option<Seq<char>>, first: Seq<char>, later: Seq<char>)
    ensures
        kept(Some(kept(slot, first)), later) == kept(slot, first),
{
}

/// The `i`-th of the letters and digits, counted from zero: the capital
/// letters, then the small ones, then the digits.
pub open spec fn alphanumeric_at(i: int) -> char
    recommends
        0 <= i < 62,
{
    if i < 26 {
        ('A' as int + i) as char
    } else if i < 52 {
        ('a' as int + (i - 26)) as char
    } else {
        ('0' as int + (i - 52)) as char
    }
}

/// The place of a letter or digit in the order of [`alphanumeric_at`].
pub open spec fn alphanumeric_rank(c: char) -> int
    recommends
        is_alphanumeric(c),
{
    if 'A' <= c && c <= 'Z' {
        c as int - 'A' as int
    } else if 'a' <= c && c <= 'z' {
        c as int - 'a' as int + 26
    } else {
        c as int - '0' as int + 52
    }
}

/// There are exactly 62 letters and digits: they are numbered by 0 to 61,
/// one to one.
pub proof fn lemma_sixty_two_alphanumerics()
    ensures
        forall|i: int|
            0 <= i < 62 ==> is_alphanumeric(#[trigger] alphanumeric_at(i)) && alphanumeric_rank(
                alphanumeric_at(i),
            ) == i,
        forall|c: char|
            is_alphanumeric(c) ==> 0 <= #[trigger] alphanumeric_rank(c) < 62 && alphanumeric_at(
                alphanumeric_rank(c),
            ) == c,
{
}

/// The number of suffixes of `len` letters and digits: 62 to the power of
/// `len`.
pub open spec fn suffix_space(len: nat) -> nat
    decreases len,
{
    if len == 0 {
        1
    } else {
        62 * suffix_space((len - 1) as nat)
    }
}

/// The `n`-th suffix of `len` letters and digits: `n` written with `len`
/// digits to the base 62.
pub open spec fn nth_suffix(n: nat, len: nat) -> Seq<char>
    decreases len,
{
    if len == 0 {
        Seq::empty()
    } else {
        nth_suffix(n / 62, (len - 1) as nat).push(alphanumeric_at((n % 62) as int))
    }
}

/// Every numbered suffix has the length asked for and is made of letters and
/// digits.
pub proof fn lemma_nth_suffix_is_suffix(n: nat, len: nat)
    ensures
        nth_suffix(n, len).len() == len,
        all_alphanumeric(nth_suffix(n, len)),
    decreases len,
{
    if len > 0 {
        lemma_nth_suffix_is_suffix(n / 62, (len - 1) as nat);
        lemma_sixty_two_alphanumerics();
        assert(is_alphanumeric(alphanumeric_at((n % 62) as int)));
    }
}

/// Different numbers below `suffix_space(len)` give different suffixes, so
/// there are at least that many suffixes of this length; for the length of
/// an identifier's suffix, 62 to the power of 11.
pub proof fn lemma_suffixes_are_distinct(n: nat, m: nat, len: nat)
    requires
        n < suffix_space(len),
        m < suffix_space(len),
        n != m,
    ensures
        nth_suffix(n, len) != nth_suffix(m, len),
    decreases len,
{
    if len > 0 {
        let shorter = (len - 1) as nat;
        let head_n = nth_suffix(n / 62, shorter);
        let head_m = nth_suffix(m / 62, shorter);
        let last_n = alphanumeric_at((n % 62) as int);
        let last_m = alphanumeric_at((m % 62) as int);
        if nth_suffix(n, len) == nth_suffix(m, len) {
            assert(head_n.push(last_n).drop_last() =~= head_n);
            assert(head_m.push(last_m).drop_last() =~= head_m);
            assert(head_n.push(last_n).last() == last_n);
            assert(head_m.push(last_m).last() == last_m);
            lemma_sixty_two_alphanumerics();
            assert(alphanumeric_rank(last_n) == n % 62);
            assert(alphanumeric_rank(last_m) == m % 62);
            assert(n / 62 != m / 62);
            lemma_suffixes_are_distinct(n / 62, m / 62, shorter);
        }
    }
}

} // verus!
