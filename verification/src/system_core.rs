use std::collections::HashMap;
use vstd::prelude::*;
use vstd::hash_map::StringHashMap;
use vstd::utf8::encode_utf8;
use crate::consts::{CODE_MAX, CODE_MIN, PLACEHOLDER};
use crate::object::{CodeType, LoginMeta, UserData};
use crate::params::LoginParams;
use crate::primitives::{
    argon2_accepts, argon2_verify, hex_encode, phc_hash_is_valid, phc_parses, random_in,
    sha256, sha256_digest,
};
use crate::text::{decimal, decimal_string, hex_bytes};
use crate::utilities::unix_time;

verus! {

broadcast use vstd::std_specs::hash::group_hash_axioms;

/// Seconds a code stays valid after it was issued.
pub const CODE_LIFETIME: u64 = 300;

/// A website or service code: the user it logs in, when it expires, and
/// what it is for.
pub type CodeEntry = (UserData, u64, CodeType);

/// An OAuth code: the account it is bound to, that user, when it expires,
/// and what it is for.
pub type OAuthEntry = (String, UserData, u64, CodeType);

pub type Codes = HashMap<u64, Vec<CodeEntry>>;

pub type OAuthCodes = HashMap<u64, Vec<OAuthEntry>>;

pub type ServiceCodes = HashMap<u64, Vec<CodeEntry>>;

/// A login in progress.
pub struct Account {
    pub redirect_addr: String,
    pub lang: String,
    pub meta: LoginMeta,
    pub params: LoginParams,
    pub redirect_after_login: String,
    pub service_after_login: String,
}

impl Account {
    /// A copy of `account`.
    pub fn from_ref(account: &Account) -> (res: Self)
        ensures
            res == *account,
    {
        Account {
            redirect_addr: account.redirect_addr.clone(),
            lang: account.lang.clone(),
            meta: account.meta.duplicate(),
            params: account.params.duplicate(),
            redirect_after_login: account.redirect_after_login.clone(),
            service_after_login: account.service_after_login.clone(),
        }
    }
}

/// The codes handed out for website, OAuth and service logins, and the
/// identifiers derived from codes.
pub struct Core {
    pub codes: Codes,
    pub oauth_codes: OAuthCodes,
    pub service_codes: ServiceCodes,
    pub uuid_codes: StringHashMap<u64>,
}

/// The expiry of a code issued at the clock reading `t`: five minutes
/// later, or `u64::MAX` when that does not fit in 64 bits.
pub open spec fn expiry_after(t: u64) -> u64 {
    if t > u64::MAX - CODE_LIFETIME {
        u64::MAX
    } else {
        (t + CODE_LIFETIME) as u64
    }
}

/// A code lies in the range the generator draws from.
pub open spec fn in_code_range(c: int) -> bool {
    CODE_MIN <= c <= CODE_MAX
}

/// Every code of the range is a key of `m`.
pub open spec fn range_full<V>(m: Map<u64, V>) -> bool {
    forall|k: u64| #![trigger m.contains_key(k)] in_code_range(k as int) ==> m.contains_key(k)
}

/// `c` is the first code, going up from `start` and wrapping from the top of
/// the range to its bottom, that is not a key of `m`.
pub open spec fn first_free_from<V>(m: Map<u64, V>, start: u64, c: u64) -> bool {
    &&& in_code_range(c as int)
    &&& !m.contains_key(c)
    &&& if c >= start {
        forall|k: u64| #![trigger m.contains_key(k)] start <= k < c ==> m.contains_key(k)
    } else {
        &&& forall|k: u64| #![trigger m.contains_key(k)] start <= k <= CODE_MAX ==> m.contains_key(k)
        &&& forall|k: u64| #![trigger m.contains_key(k)] CODE_MIN <= k < c ==> m.contains_key(k)
    }
}

/// Why no code was issued.
#[derive(Debug, Clone, Copy, PartialEq, Eq, Structural)]
pub enum IssueError {
    /// Every code of the range is taken.
    CodesExhausted,
    /// The clock reads before 1970, so no expiry can be set.
    ClockBeforeEpoch,
}

/// When issuing a code into the table `m` fails: `CodesExhausted` only on
/// a full range, always an error on a full range, and otherwise nothing but
/// a clock before 1970 stops it.
pub open spec fn issue_outcome<V>(m: Map<u64, V>, res: Result<u64, IssueError>) -> bool {
    &&& res == Err::<u64, IssueError>(IssueError::CodesExhausted) ==> range_full(m)
    &&& range_full(m) ==> res is Err
    &&& !range_full(m) ==> res is Ok || res == Err::<u64, IssueError>(IssueError::ClockBeforeEpoch)
}

/// The result of checking a website code.
pub enum CallbackOutcome {
    /// No such code.
    InvalidCode,
    /// The code had expired; it is gone now.
    CodeExpired,
    /// The code is not a website code; it stays.
    WrongCodeType,
    /// The code was valid; it is gone now.
    Valid { user: UserData, expiration_time: u64, current_time: u64, code_type: CodeType },
}

/// What checking `code` at time `now` does to the website codes, and what it
/// answers.
pub open spec fn redeem(m: Map<u64, Vec<CodeEntry>>, code: u64, now: u64) -> (
    Map<u64, Vec<CodeEntry>>,
    CallbackOutcome,
) {
    if !m.contains_key(code) {
        (m, CallbackOutcome::InvalidCode)
    } else {
        let entry = m[code]@[0];
        if now > entry.1 {
            (m.remove(code), CallbackOutcome::CodeExpired)
        } else if entry.2 != CodeType::Website {
            (m, CallbackOutcome::WrongCodeType)
        } else {
            (
                m.remove(code),
                CallbackOutcome::Valid {
                    user: entry.0,
                    expiration_time: entry.1,
                    current_time: now,
                    code_type: entry.2,
                },
            )
        }
    }
}

/// The identifier of a code: the hexadecimal SHA-256 digest of its decimal
/// form.
pub open spec fn code_uuid(code: u64) -> Seq<char> {
    hex_bytes(sha256_digest(encode_utf8(decimal(code as nat))))
}

/// The first code at or after `start` (wrapping around the range) that is not
/// a key of `m`, or `None` when every code of the range is taken.
fn free_code_from<V>(m: &HashMap<u64, V>, start: u64) -> (res: Option<u64>)
    requires
        in_code_range(start as int),
    ensures
        match res {
            Some(c) => first_free_from(m@, start, c),
            None => range_full(m@),
        },
{
    let mut c = start;
    while c <= CODE_MAX
        invariant
            in_code_range(start as int),
            start <= c <= CODE_MAX + 1,
            forall|k: u64| #![trigger m@.contains_key(k)] start <= k < c ==> m@.contains_key(k),
        decreases CODE_MAX + 1 - c,
    {
        if !m.contains_key(&c) {
            return Some(c);
        }
        c = c + 1;
    }
    c = CODE_MIN;
    while c < start
        invariant
            in_code_range(start as int),
            CODE_MIN <= c <= start,
            forall|k: u64| #![trigger m@.contains_key(k)] start <= k <= CODE_MAX ==> m@.contains_key(k),
            forall|k: u64| #![trigger m@.contains_key(k)] CODE_MIN <= k < c ==> m@.contains_key(k),
        decreases start - c,
    {
        if !m.contains_key(&c) {
            return Some(c);
        }
        c = c + 1;
    }
    None
}

impl Core {
    /// Every stored code has at least one entry.
    pub open spec fn wf(&self) -> bool {
        &&& forall|k: u64| #[trigger] self.codes@.contains_key(k) ==> self.codes@[k]@.len() > 0
        &&& forall|k: u64| #[trigger] self.oauth_codes@.contains_key(k) ==> self.oauth_codes@[k]@.len() > 0
        &&& forall|k: u64| #[trigger] self.service_codes@.contains_key(k) ==> self.service_codes@[k]@.len() > 0
    }

    /// A store with no codes.
    pub fn new() -> (res: Self)
        ensures
            res.codes@ == Map::<u64, Vec<CodeEntry>>::empty(),
            res.oauth_codes@ == Map::<u64, Vec<OAuthEntry>>::empty(),
            res.service_codes@ == Map::<u64, Vec<CodeEntry>>::empty(),
            res.uuid_codes@ == Map::<Seq<char>, u64>::empty(),
            res.wf(),
    {
        Core {
            codes: HashMap::new(),
            oauth_codes: HashMap::new(),
            service_codes: HashMap::new(),
            uuid_codes: StringHashMap::new(),
        }
    }

    /// Issues a website code for `user`, valid until `now + CODE_LIFETIME`:
    /// the first free code at or after `candidate` (wrapping around the
    /// range). `None`, with nothing changed, when every code is taken.
    pub fn issue_code(&mut self, candidate: u64, now: u64, user: UserData, code_type: CodeType) -> (res: Option<u64>)
        requires
            old(self).wf(),
            in_code_range(candidate as int),
            now <= u64::MAX - CODE_LIFETIME,
        ensures
            final(self).wf(),
            final(self).oauth_codes@ == old(self).oauth_codes@,
            final(self).service_codes@ == old(self).service_codes@,
            final(self).uuid_codes@ == old(self).uuid_codes@,
            match res {
                Some(c) => {
                    &&& first_free_from(old(self).codes@, candidate, c)
                    &&& final(self).codes@.dom() == old(self).codes@.dom().insert(c)
                    &&& forall|k: u64| k != c && #[trigger] old(self).codes@.contains_key(k) ==> final(self).codes@[k] == old(self).codes@[k]
                    &&& final(self).codes@[c]@ == seq![(user, (now + CODE_LIFETIME) as u64, code_type)]
                },
                None => {
                    &&& range_full(old(self).codes@)
                    &&& final(self).codes@ == old(self).codes@
                },
            },
    {
        match free_code_from(&self.codes, candidate) {
            Some(c) => {
                let mut entries: Vec<CodeEntry> = Vec::new();
                entries.push((user, now + CODE_LIFETIME, code_type));
                self.codes.insert(c, entries);
                Some(c)
            },
            None => None,
        }
    }

    /// Issues a website code for `user` that expires five minutes after the
    /// clock reading `clock` (in seconds since 1970; `None` when the clock
    /// reads before 1970): a random code of the range, or the next free one
    /// after it when it is taken. A reading so late that the expiry would not
    /// fit in 64 bits gives the expiry `u64::MAX`. Nothing changes on an
    /// error: every code of the range is taken, or there is no reading.
    pub fn generate_code_at(&mut self, user: UserData, code_type: CodeType, clock: Option<u64>) -> (res: Result<u64, IssueError>)
        requires
            old(self).wf(),
        ensures
            final(self).wf(),
            final(self).oauth_codes@ == old(self).oauth_codes@,
            final(self).service_codes@ == old(self).service_codes@,
            final(self).uuid_codes@ == old(self).uuid_codes@,
            clock is None ==> res == Err::<u64, IssueError>(IssueError::ClockBeforeEpoch),
            match res {
                Ok(c) => {
                    &&& in_code_range(c as int)
                    &&& !old(self).codes@.contains_key(c)
                    &&& exists|start: u64| in_code_range(start as int) && #[trigger] first_free_from(old(self).codes@, start, c)
                    &&& final(self).codes@.dom() == old(self).codes@.dom().insert(c)
                    &&& forall|k: u64| k != c && #[trigger] old(self).codes@.contains_key(k) ==> final(self).codes@[k] == old(self).codes@[k]
                    &&& clock matches Some(t) && final(self).codes@[c]@ == seq![
                        (user, if t > u64::MAX - CODE_LIFETIME { u64::MAX } else { (t + CODE_LIFETIME) as u64 }, code_type),
                    ]
                },
                Err(_) => final(self).codes@ == old(self).codes@,
            },
            issue_outcome(old(self).codes@, res),
    {
        let candidate = random_in(CODE_MIN, CODE_MAX);
        let clock = match clock {
            Some(t) => t,
            None => {
                return Err(IssueError::ClockBeforeEpoch);
            },
        };
        let now = if clock > u64::MAX - CODE_LIFETIME {
            u64::MAX - CODE_LIFETIME
        } else {
            clock
        };
        let ghost u = user;
        let res = self.issue_code(candidate, now, user, code_type);
        proof {
            if res is Some {
                let c = res->0;
                assert(final(self).codes@[c]@ == seq![(u, (now + CODE_LIFETIME) as u64, code_type)]);
                assert(first_free_from(old(self).codes@, candidate, c));
            }
        }
        match res {
            Some(c) => Ok(c),
            None => Err(IssueError::CodesExhausted),
        }
    }

    /// Issues a website code for `user` that expires five minutes from now,
    /// as `generate_code_at` does with the current clock reading.
    pub fn generate_code(&mut self, user: UserData, code_type: CodeType) -> (res: Result<u64, IssueError>)
        requires
            old(self).wf(),
        ensures
            final(self).wf(),
            final(self).oauth_codes@ == old(self).oauth_codes@,
            final(self).service_codes@ == old(self).service_codes@,
            final(self).uuid_codes@ == old(self).uuid_codes@,
            match res {
                Ok(c) => {
                    &&& in_code_range(c as int)
                    &&& !old(self).codes@.contains_key(c)
                    &&& exists|start: u64| in_code_range(start as int) && #[trigger] first_free_from(old(self).codes@, start, c)
                    &&& final(self).codes@.dom() == old(self).codes@.dom().insert(c)
                    &&& forall|k: u64| k != c && #[trigger] old(self).codes@.contains_key(k) ==> final(self).codes@[k] == old(self).codes@[k]
                    &&& exists|expires: u64| expires >= CODE_LIFETIME && final(self).codes@[c]@ == seq![(user, expires, code_type)]
                    &&& exists|t: u64| #[trigger] expiry_after(t) == final(self).codes@[c]@[0].1
                },
                Err(_) => final(self).codes@ == old(self).codes@,
            },
            issue_outcome(old(self).codes@, res),
    {
        let clock = unix_time();
        let ghost u = user;
        let res = self.generate_code_at(user, code_type, clock);
        proof {
            if res is Ok {
                let c = res->Ok_0;
                let t = clock->0;
                let e = expiry_after(t);
                assert(final(self).codes@[c]@ == seq![(u, e, code_type)]);
                assert(e >= CODE_LIFETIME);
            }
        }
        res
    }

    /// Issues a code of kind `code_type` with no user yet, valid until
    /// `now + CODE_LIFETIME`, at the first free place at or after
    /// `candidate`: an OAuth code (bound to the placeholder account) or a
    /// service code. A website code is never issued this way: the answer is
    /// `Some(0)` and nothing changes. `None`, with nothing changed, when
    /// every code of the table is taken.
    pub fn issue_code_ext(&mut self, candidate: u64, now: u64, code_type: CodeType) -> (res: Option<u64>)
        requires
            old(self).wf(),
            in_code_range(candidate as int),
            now <= u64::MAX - CODE_LIFETIME,
        ensures
            final(self).wf(),
            final(self).codes@ == old(self).codes@,
            final(self).uuid_codes@ == old(self).uuid_codes@,
            code_type == CodeType::Website ==> res == Some(0u64) && final(self).oauth_codes@
                == old(self).oauth_codes@ && final(self).service_codes@ == old(
                self,
            ).service_codes@,
            code_type == CodeType::OAuth ==> final(self).service_codes@ == old(self).service_codes@
                && match res {
                Some(c) => {
                    &&& first_free_from(old(self).oauth_codes@, candidate, c)
                    &&& final(self).oauth_codes@ == old(self).oauth_codes@.insert(c, final(self).oauth_codes@[c])
                    &&& final(self).oauth_codes@[c]@.len() == 1
                    &&& final(self).oauth_codes@[c]@[0].0@ == PLACEHOLDER@
                    &&& final(self).oauth_codes@[c]@[0].1.is_empty()
                    &&& final(self).oauth_codes@[c]@[0].2 == now + CODE_LIFETIME
                    &&& final(self).oauth_codes@[c]@[0].3 == CodeType::OAuth
                },
                None => range_full(old(self).oauth_codes@) && final(self).oauth_codes@ == old(self).oauth_codes@,
            },
            code_type == CodeType::Service ==> final(self).oauth_codes@ == old(self).oauth_codes@
                && match res {
                Some(c) => {
                    &&& first_free_from(old(self).service_codes@, candidate, c)
                    &&& final(self).service_codes@ == old(self).service_codes@.insert(c, final(self).service_codes@[c])
                    &&& final(self).service_codes@[c]@.len() == 1
                    &&& final(self).service_codes@[c]@[0].0.is_empty()
                    &&& final(self).service_codes@[c]@[0].1 == now + CODE_LIFETIME
                    &&& final(self).service_codes@[c]@[0].2 == CodeType::Service
                },
                None => range_full(old(self).service_codes@) && final(self).service_codes@ == old(self).service_codes@,
            },
    {
        match code_type {
            CodeType::Website => Some(0),
            CodeType::OAuth => {
                match free_code_from(&self.oauth_codes, candidate) {
                    Some(c) => {
                        let mut entries: Vec<OAuthEntry> = Vec::new();
                        entries.push((String::from_str(PLACEHOLDER), UserData::default(), now + CODE_LIFETIME, code_type));
                        self.oauth_codes.insert(c, entries);
                        Some(c)
                    },
                    None => None,
                }
            },
            CodeType::Service => {
                match free_code_from(&self.service_codes, candidate) {
                    Some(c) => {
                        let mut entries: Vec<CodeEntry> = Vec::new();
                        entries.push((UserData::default(), now + CODE_LIFETIME, code_type));
                        self.service_codes.insert(c, entries);
                        Some(c)
                    },
                    None => None,
                }
            },
        }
    }

    /// Issues an OAuth or service code with no user yet, expiring five
    /// minutes after the clock reading `clock` (see `issue_code_ext`; `None`
    /// when the clock reads before 1970); `Ok(0)` for a website code. A
    /// reading so late that the expiry would not fit in 64 bits gives the
    /// expiry `u64::MAX`. Nothing changes on an error: every code of the table
    /// is taken, or there is no reading.
    pub fn generate_code_ext_at(&mut self, code_type: CodeType, clock: Option<u64>) -> (res: Result<u64, IssueError>)
        requires
            old(self).wf(),
        ensures
            final(self).wf(),
            final(self).codes@ == old(self).codes@,
            final(self).uuid_codes@ == old(self).uuid_codes@,
            code_type == CodeType::Website ==> res == Ok::<u64, IssueError>(0u64) && final(self).oauth_codes@
                == old(self).oauth_codes@ && final(self).service_codes@ == old(
                self,
            ).service_codes@,
            code_type == CodeType::OAuth ==> final(self).service_codes@ == old(self).service_codes@
                && match res {
                Ok(c) => {
                    &&& in_code_range(c as int)
                    &&& !old(self).oauth_codes@.contains_key(c)
                    &&& final(self).oauth_codes@ == old(self).oauth_codes@.insert(c, final(self).oauth_codes@[c])
                    &&& final(self).oauth_codes@[c]@.len() == 1
                    &&& final(self).oauth_codes@[c]@[0].0@ == PLACEHOLDER@
                    &&& final(self).oauth_codes@[c]@[0].1.is_empty()
                    &&& clock matches Some(t) && final(self).oauth_codes@[c]@[0].2 == (if t > u64::MAX
                        - CODE_LIFETIME { u64::MAX } else { (t + CODE_LIFETIME) as u64 })
                    &&& final(self).oauth_codes@[c]@[0].3 == CodeType::OAuth
                },
                Err(_) => final(self).oauth_codes@ == old(self).oauth_codes@,
            },
            code_type == CodeType::Service ==> final(self).oauth_codes@ == old(self).oauth_codes@
                && match res {
                Ok(c) => {
                    &&& in_code_range(c as int)
                    &&& !old(self).service_codes@.contains_key(c)
                    &&& final(self).service_codes@ == old(self).service_codes@.insert(c, final(self).service_codes@[c])
                    &&& final(self).service_codes@[c]@.len() == 1
                    &&& final(self).service_codes@[c]@[0].0.is_empty()
                    &&& clock matches Some(t) && final(self).service_codes@[c]@[0].1 == (if t > u64::MAX
                        - CODE_LIFETIME { u64::MAX } else { (t + CODE_LIFETIME) as u64 })
                    &&& final(self).service_codes@[c]@[0].2 == CodeType::Service
                },
                Err(_) => final(self).service_codes@ == old(self).service_codes@,
            },
            code_type != CodeType::Website && clock is None ==> res == Err::<u64, IssueError>(
                IssueError::ClockBeforeEpoch,
            ),
            code_type == CodeType::OAuth ==> issue_outcome(old(self).oauth_codes@, res),
            code_type == CodeType::Service ==> issue_outcome(old(self).service_codes@, res),
    {
        let candidate = random_in(CODE_MIN, CODE_MAX);
        if code_type == CodeType::Website {
            return Ok(0);
        }
        let clock = match clock {
            Some(t) => t,
            None => {
                return Err(IssueError::ClockBeforeEpoch);
            },
        };
        let now = if clock > u64::MAX - CODE_LIFETIME {
            u64::MAX - CODE_LIFETIME
        } else {
            clock
        };
        match self.issue_code_ext(candidate, now, code_type) {
            Some(c) => Ok(c),
            None => Err(IssueError::CodesExhausted),
        }
    }

    /// Issues an OAuth or service code with no user yet, expiring five
    /// minutes from now, as `generate_code_ext_at` does with the current
    /// clock reading; `Ok(0)` for a website code.
    pub fn generate_code_ext(&mut self, code_type: CodeType) -> (res: Result<u64, IssueError>)
        requires
            old(self).wf(),
        ensures
            final(self).wf(),
            final(self).codes@ == old(self).codes@,
            final(self).uuid_codes@ == old(self).uuid_codes@,
            code_type == CodeType::Website ==> res == Ok::<u64, IssueError>(0u64) && final(self).oauth_codes@
                == old(self).oauth_codes@ && final(self).service_codes@ == old(
                self,
            ).service_codes@,
            code_type == CodeType::OAuth ==> final(self).service_codes@ == old(self).service_codes@
                && match res {
                Ok(c) => {
                    &&& in_code_range(c as int)
                    &&& !old(self).oauth_codes@.contains_key(c)
                    &&& final(self).oauth_codes@ == old(self).oauth_codes@.insert(c, final(self).oauth_codes@[c])
                    &&& final(self).oauth_codes@[c]@.len() == 1
                    &&& final(self).oauth_codes@[c]@[0].0@ == PLACEHOLDER@
                    &&& final(self).oauth_codes@[c]@[0].1.is_empty()
                    &&& final(self).oauth_codes@[c]@[0].2 >= CODE_LIFETIME
                    &&& final(self).oauth_codes@[c]@[0].3 == CodeType::OAuth
                },
                Err(_) => final(self).oauth_codes@ == old(self).oauth_codes@,
            },
            code_type == CodeType::Service ==> final(self).oauth_codes@ == old(self).oauth_codes@
                && match res {
                Ok(c) => {
                    &&& in_code_range(c as int)
                    &&& !old(self).service_codes@.contains_key(c)
                    &&& final(self).service_codes@ == old(self).service_codes@.insert(c, final(self).service_codes@[c])
                    &&& final(self).service_codes@[c]@.len() == 1
                    &&& final(self).service_codes@[c]@[0].0.is_empty()
                    &&& final(self).service_codes@[c]@[0].1 >= CODE_LIFETIME
                    &&& final(self).service_codes@[c]@[0].2 == CodeType::Service
                },
                Err(_) => final(self).service_codes@ == old(self).service_codes@,
            },
            code_type == CodeType::OAuth ==> issue_outcome(old(self).oauth_codes@, res),
            code_type == CodeType::Service ==> issue_outcome(old(self).service_codes@, res),
    {
        let clock = unix_time();
        self.generate_code_ext_at(code_type, clock)
    }

    /// Records the identifier of `code` (the hexadecimal SHA-256 digest of its
    /// decimal form) and returns it.
    pub fn generate_uuid_code(&mut self, code: &u64) -> (res: String)
        ensures
            res@ == code_uuid(*code),
            res@.len() == 64,
            final(self).uuid_codes@ == old(self).uuid_codes@.insert(res@, *code),
            final(self).codes@ == old(self).codes@,
            final(self).oauth_codes@ == old(self).oauth_codes@,
            final(self).service_codes@ == old(self).service_codes@,
    {
        let text = decimal_string(*code);
        let digest = sha256(text.as_str().as_bytes());
        let uuid = hex_encode(digest.as_slice());
        self.uuid_codes.insert(uuid.clone(), *code);
        proof {
            crate::utilities::lemma_hex_bytes_len(digest@);
        }
        uuid
    }

    /// Checks a website code at time `now` (see `redeem`): an unknown code is
    /// invalid; an expired code is removed; a code of another kind stays;
    /// a valid code is removed and its user returned.
    pub fn redeem_code(&mut self, code: u64, now: u64) -> (res: CallbackOutcome)
        requires
            old(self).wf(),
        ensures
            final(self).wf(),
            (final(self).codes@, res) == redeem(old(self).codes@, code, now),
            final(self).oauth_codes@ == old(self).oauth_codes@,
            final(self).service_codes@ == old(self).service_codes@,
            final(self).uuid_codes@ == old(self).uuid_codes@,
    {
        let (user, expiration_time, code_type) = match self.codes.get(&code) {
            Some(entries) => {
                let first = &entries[0];
                (first.0.duplicate(), first.1, first.2)
            },
            None => {
                return CallbackOutcome::InvalidCode;
            },
        };
        if now > expiration_time {
            self.codes.remove(&code);
            return CallbackOutcome::CodeExpired;
        }
        if code_type != CodeType::Website {
            return CallbackOutcome::WrongCodeType;
        }
        self.codes.remove(&code);
        CallbackOutcome::Valid { user, expiration_time, current_time: now, code_type }
    }

    /// Binds a pending OAuth code to `username` and that user's record,
    /// keeping its expiry and kind. Returns whether the code exists; an
    /// unknown code changes nothing.
    pub fn bind_oauth_code(&mut self, code: u64, username: String, user: UserData) -> (res: bool)
        requires
            old(self).wf(),
        ensures
            final(self).wf(),
            res == old(self).oauth_codes@.contains_key(code),
            res ==> final(self).oauth_codes@ == old(self).oauth_codes@.insert(code, final(self).oauth_codes@[code]),
            res ==> final(self).oauth_codes@[code]@ == seq![(username, user, old(self).oauth_codes@[code]@[0].2, old(self).oauth_codes@[code]@[0].3)],
            !res ==> final(self).oauth_codes@ == old(self).oauth_codes@,
            final(self).codes@ == old(self).codes@,
            final(self).service_codes@ == old(self).service_codes@,
            final(self).uuid_codes@ == old(self).uuid_codes@,
    {
        let (expiration_time, code_type) = match self.oauth_codes.get(&code) {
            Some(entries) => (entries[0].2, entries[0].3),
            None => {
                return false;
            },
        };
        let mut entries: Vec<OAuthEntry> = Vec::new();
        entries.push((username, user, expiration_time, code_type));
        self.oauth_codes.insert(code, entries);
        true
    }
}

/// A website code is good for one login: once a check has accepted it, or
/// found it expired, a second check finds no such code.
pub proof fn law_code_single_use(m: Map<u64, Vec<CodeEntry>>, code: u64, now: u64, later: u64)
    requires
        redeem(m, code, now).1 is Valid || redeem(m, code, now).1 is CodeExpired,
    ensures
        redeem(redeem(m, code, now).0, code, later).1 is InvalidCode,
{
}

/// A code of another kind is refused by the website check and stays as it
/// was, so every later check refuses it the same way until it expires.
pub proof fn law_wrong_type_code_stays(m: Map<u64, Vec<CodeEntry>>, code: u64, now: u64)
    requires
        redeem(m, code, now).1 is WrongCodeType,
    ensures
        redeem(m, code, now).0 == m,
        redeem(redeem(m, code, now).0, code, now).1 is WrongCodeType,
{
}

/// A website code issued for `user` and checked before it expires logs in
/// that user, and the store is left as it was before the code was issued.
pub proof fn law_issued_code_redeems(
    m: Map<u64, Vec<CodeEntry>>,
    code: u64,
    entries: Vec<CodeEntry>,
    user: UserData,
    expires: u64,
    now: u64,
)
    requires
        !m.contains_key(code),
        entries@ == seq![(user, expires, CodeType::Website)],
        now <= expires,
    ensures
        redeem(m.insert(code, entries), code, now) == (
            m,
            CallbackOutcome::Valid {
                user: user,
                expiration_time: expires,
                current_time: now,
                code_type: CodeType::Website,
            },
        ),
{
    assert(m.insert(code, entries).remove(code) =~= m);
}

/// A website code issued at the clock reading `t` (with its expiry five
/// minutes later, as `generate_code_at` stores it) logs its user in when it is
/// checked at any time from `t` to five minutes after `t`, and is reported as
/// expired when it is checked later than that.
pub proof fn law_fresh_code_lives_five_minutes(
    m: Map<u64, Vec<CodeEntry>>,
    code: u64,
    entries: Vec<CodeEntry>,
    user: UserData,
    t: u64,
    later: u64,
)
    requires
        !m.contains_key(code),
        t <= u64::MAX - CODE_LIFETIME,
        entries@ == seq![(user, (t + CODE_LIFETIME) as u64, CodeType::Website)],
        t <= later,
    ensures
        later <= t + 300 ==> redeem(m.insert(code, entries), code, later).1 is Valid,
        later <= t + 300 ==> redeem(m.insert(code, entries), code, later).1 == (CallbackOutcome::Valid {
            user: user,
            expiration_time: (t + 300) as u64,
            current_time: later,
            code_type: CodeType::Website,
        }),
        later > t + 300 ==> redeem(m.insert(code, entries), code, later).1 is CodeExpired,
{
    assert(m.insert(code, entries).remove(code) =~= m);
    assert(m.insert(code, entries).contains_key(code));
    assert(m.insert(code, entries)[code] == entries);
}

/// An issued code that is checked after it expired is reported as expired
/// and removed.
pub proof fn law_late_code_expires(
    m: Map<u64, Vec<CodeEntry>>,
    code: u64,
    entries: Vec<CodeEntry>,
    user: UserData,
    expires: u64,
    code_type: CodeType,
    now: u64,
)
    requires
        !m.contains_key(code),
        entries@ == seq![(user, expires, code_type)],
        now > expires,
    ensures
        redeem(m.insert(code, entries), code, now) == (m, CallbackOutcome::CodeExpired),
{
    assert(m.insert(code, entries).remove(code) =~= m);
}

/// Checks `entered_password` against the stored Argon2 PHC string. The
/// stored string must parse (see `try_verify_password` for a check that
/// does not ask this).
pub fn verify_password(stored_password: String, entered_password: &String) -> (res: bool)
    requires
        phc_parses(stored_password@),
    ensures
        res == argon2_accepts(stored_password@, encode_utf8(entered_password@)),
{
    argon2_verify(stored_password.as_str(), entered_password.as_str().as_bytes())
}

/// `None` when the stored string is not a PHC string; otherwise whether
/// `entered_password` matches it.
pub fn try_verify_password(stored_password: String, entered_password: &String) -> (res: Option<bool>)
    ensures
        res == if phc_parses(stored_password@) {
            Some(argon2_accepts(stored_password@, encode_utf8(entered_password@)))
        } else {
            None
        },
{
    if phc_hash_is_valid(stored_password.as_str()) {
        Some(verify_password(stored_password, entered_password))
    } else {
        None
    }
}

} // verus!
