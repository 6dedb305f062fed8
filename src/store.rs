//! The credential record shared by the listener and the host callbacks, and
//! the composition of the principal name.
use vstd::prelude::*;
use crate::wide::{utf16_encode, utf16_of_char, to_wide_vec, wide_of};

verus! {

/// The UTF-16 unit of `.`, the domain that names the local machine.
pub const LOCAL_DOMAIN_UNIT: u16 = 0x2E;

/// The UTF-16 unit of the `\` that separates domain and user.
pub const DOMAIN_SEPARATOR_UNIT: u16 = 0x5C;

/// The fully qualified principal, on text: the user alone when the domain
/// is empty or `.`, else domain, `\` and user.
pub open spec fn principal_text(domain: Seq<char>, user: Seq<char>) -> Seq<char> {
    if domain.len() == 0 || domain == seq!['.'] {
        user
    } else {
        domain + seq!['\\'] + user
    }
}

/// The fully qualified principal, on UTF-16 units.
pub open spec fn principal_units_spec(domain: Seq<u16>, user: Seq<u16>) -> Seq<u16> {
    if domain.len() == 0 || domain == seq![LOCAL_DOMAIN_UNIT] {
        user
    } else {
        domain + seq![DOMAIN_SEPARATOR_UNIT] + user
    }
}

/// The in-flight credential record of one logon attempt. Text fields hold
/// UTF-16 code units without terminator, as they come off the channel.
pub struct SharedCredentials {
    pub username: Vec<u16>,
    pub password: Vec<u16>,
    pub domain: Vec<u16>,
    pub is_ready: bool,
}

impl SharedCredentials {
    /// An empty record for the given domain, not ready.
    pub fn new(domain: &str) -> (r: SharedCredentials)
        ensures
            r.username@.len() == 0,
            r.password@.len() == 0,
            r.domain@ == utf16_encode(domain@),
            !r.is_ready,
    {
        let mut d = to_wide_vec(domain);
        d.pop();
        proof {
            assert(d@ =~= wide_of(domain@).drop_last());
        }
        SharedCredentials { username: Vec::new(), password: Vec::new(), domain: d, is_ready: false }
    }

    /// Stores the received user name.
    pub fn set_username(&mut self, name: Vec<u16>)
        ensures
            final(self).username@ == name@,
            final(self).password@ == old(self).password@,
            final(self).domain@ == old(self).domain@,
            final(self).is_ready == old(self).is_ready,
    {
        self.username = name;
    }

    /// Stores the received password.
    pub fn set_password(&mut self, password: Vec<u16>)
        ensures
            final(self).password@ == password@,
            final(self).username@ == old(self).username@,
            final(self).domain@ == old(self).domain@,
            final(self).is_ready == old(self).is_ready,
    {
        self.password = password;
    }

    /// Marks the record complete; it never becomes incomplete again.
    pub fn mark_ready(&mut self)
        ensures
            final(self).is_ready,
            final(self).username@ == old(self).username@,
            final(self).password@ == old(self).password@,
            final(self).domain@ == old(self).domain@,
    {
        self.is_ready = true;
    }

    /// The principal name: the user alone for an empty or local domain,
    /// else `domain\user`.
    pub fn principal_units(&self) -> (r: Vec<u16>)
        ensures
            r@ == principal_units_spec(self.domain@, self.username@),
    {
        let local = self.domain.len() == 1 && self.domain[0] == LOCAL_DOMAIN_UNIT;
        proof {
            if local {
                assert(self.domain@ =~= seq![LOCAL_DOMAIN_UNIT]);
            }
        }
        if self.domain.len() == 0 || local {
            return self.username.clone();
        }
        let mut r = self.domain.clone();
        r.push(DOMAIN_SEPARATOR_UNIT);
        let mut i: usize = 0;
        while i < self.username.len()
            invariant
                i <= self.username@.len(),
                r@ =~= self.domain@ + seq![DOMAIN_SEPARATOR_UNIT] + self.username@.subrange(0, i as int),
            decreases self.username@.len() - i,
        {
            r.push(self.username[i]);
            i = i + 1;
        }
        proof {
            assert(self.username@.subrange(0, self.username@.len() as int) =~= self.username@);
            assert(self.domain@ != seq![LOCAL_DOMAIN_UNIT]);
        }
        r
    }
}

/// UTF-16 encoding distributes over concatenation.
pub proof fn lemma_utf16_concat(a: Seq<char>, b: Seq<char>)
    ensures
        utf16_encode(a + b) == utf16_encode(a) + utf16_encode(b),
    decreases a.len(),
{
    if a.len() > 0 {
        lemma_utf16_concat(a.drop_first(), b);
        assert((a + b).drop_first() =~= a.drop_first() + b);
        assert(utf16_encode(a + b) =~= utf16_of_char(a[0]) + (utf16_encode(a.drop_first())
            + utf16_encode(b)));
    } else {
        assert(a + b =~= b);
        assert(utf16_encode(a) + utf16_encode(b) =~= utf16_encode(b));
    }
}

proof fn lemma_utf16_len_lower(cs: Seq<char>)
    ensures
        utf16_encode(cs).len() >= cs.len(),
    decreases cs.len(),
{
    if cs.len() > 0 {
        lemma_utf16_len_lower(cs.drop_first());
    }
}

proof fn lemma_encode_single(c: char)
    ensures
        utf16_encode(seq![c]) == utf16_of_char(c),
{
    reveal_with_fuel(utf16_encode, 2);
    assert(seq![c].drop_first() =~= Seq::<char>::empty());
    assert(utf16_of_char(c) + Seq::<u16>::empty() =~= utf16_of_char(c));
}

proof fn lemma_encode_local(d: Seq<char>)
    ensures
        (utf16_encode(d) == seq![LOCAL_DOMAIN_UNIT]) == (d == seq!['.']),
        (utf16_encode(d).len() == 0) == (d.len() == 0),
{
    lemma_utf16_len_lower(d);
    lemma_encode_single('.');
    if utf16_encode(d) == seq![LOCAL_DOMAIN_UNIT] {
        assert(d.len() == 1);
        let c = d[0];
        assert(d =~= seq![c]);
        lemma_encode_single(c);
        let v = c as u32;
        assert(v < 0x10000);
        assert(utf16_of_char(c)[0] == seq![LOCAL_DOMAIN_UNIT][0]);
        assert((v as u16) == 0x2E);
        assert(v == 0x2E);
        vstd::utf8::char_u32_cast(c, v);
        vstd::utf8::char_u32_cast('.', 0x2Eu32);
    }
}

/// The principal composed on units is the encoding of the principal
/// composed on text: the user alone for an empty or `.` domain, otherwise
/// domain, `\` and user.
pub proof fn lemma_principal_composition(domain: Seq<char>, user: Seq<char>)
    ensures
        principal_units_spec(utf16_encode(domain), utf16_encode(user)) == utf16_encode(
            principal_text(domain, user),
        ),
{
    lemma_encode_local(domain);
    if !(domain.len() == 0 || domain == seq!['.']) {
        lemma_utf16_concat(domain, seq!['\\']);
        lemma_utf16_concat(domain + seq!['\\'], user);
        lemma_encode_single('\\');
        assert(utf16_of_char('\\') =~= seq![DOMAIN_SEPARATOR_UNIT]);
    }
}

} // verus!
