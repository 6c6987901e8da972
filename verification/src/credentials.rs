//! The session as it is kept in the credential store.
//!
//! The store itself belongs to the operating system and is reached by the
//! caller. This module says what is written into the one entry that the
//! library uses, and what is made of what is found there.

use crate::codec::{
    decimal_value, frame, lemma_decimal_round_trip, lemma_frame_round_trip, parse_decimal,
    read_record, unframe, write_record,
};
use crate::error::CredentialsError;
use crate::session::{AuthSession, Provider, SessionView, Timestamp};
use crate::text::{chars_of, decimal, decimal_string, str_eq, texts};
use vstd::prelude::*;

verus! {

/// The service under which the entry is kept.
pub const SERVICE_NAME: &'static str = "tsukimi";

/// The account under which the entry is kept.
pub const ACCOUNT_NAME: &'static str = "github_access_token";

/// The text that stands for a provider.
pub open spec fn provider_tag(provider: Provider) -> Seq<char> {
    match provider {
        Provider::DeviceCode => "device"@,
        Provider::OAuth => "oauth"@,
    }
}

/// The provider that a text stands for.
pub open spec fn tag_provider(tag: Seq<char>) -> Option<Provider> {
    if tag == "device"@ {
        Some(Provider::DeviceCode)
    } else if tag == "oauth"@ {
        Some(Provider::OAuth)
    } else {
        None
    }
}

/// An optional text: a mark, and the text where there is one.
pub open spec fn optional_atoms(value: Option<Seq<char>>) -> Seq<Seq<char>> {
    match value {
        Some(t) => seq!["+"@, t],
        None => seq!["-"@],
    }
}

/// An optional point in time: a mark, and its seconds and nanoseconds where
/// there is one.
pub open spec fn expiry_atoms(value: Option<Timestamp>) -> Seq<Seq<char>> {
    match value {
        Some(t) => seq!["+"@, decimal(t.seconds as nat), decimal(t.nanos as nat)],
        None => seq!["-"@],
    }
}

/// An optional list of scopes: a mark, and the scopes where there is a list.
pub open spec fn scope_atoms(value: Option<Seq<Seq<char>>>) -> Seq<Seq<char>> {
    match value {
        Some(scopes) => seq!["+"@] + scopes,
        None => seq!["-"@],
    }
}

/// The record of a session: provider, access token, refresh token, expiry
/// and scopes, in this order.
pub open spec fn session_atoms(session: SessionView) -> Seq<Seq<char>> {
    seq![provider_tag(session.provider), session.access_token] + optional_atoms(
        session.refresh_token,
    ) + expiry_atoms(session.expires_at) + scope_atoms(session.scopes)
}

/// The optional text that starts at `at`, and the place after it.
pub open spec fn optional_at(atoms: Seq<Seq<char>>, at: int) -> Option<(Option<Seq<char>>, int)> {
    if !(0 <= at < atoms.len()) {
        None
    } else if atoms[at] == "-"@ {
        Some((None, at + 1))
    } else if atoms[at] == "+"@ && at + 1 < atoms.len() {
        Some((Some(atoms[at + 1]), at + 2))
    } else {
        None
    }
}

/// The optional point in time that starts at `at`, and the place after it.
pub open spec fn expiry_at(atoms: Seq<Seq<char>>, at: int) -> Option<(Option<Timestamp>, int)> {
    if !(0 <= at < atoms.len()) {
        None
    } else if atoms[at] == "-"@ {
        Some((None, at + 1))
    } else if atoms[at] == "+"@ && at + 2 < atoms.len() {
        match (decimal_value(atoms[at + 1]), decimal_value(atoms[at + 2])) {
            (Some(seconds), Some(nanos)) => if seconds <= u64::MAX && nanos <= u32::MAX {
                Some((Some(Timestamp { seconds: seconds as u64, nanos: nanos as u32 }), at + 3))
            } else {
                None
            },
            _ => None,
        }
    } else {
        None
    }
}

/// The optional list of scopes that starts at `at` and runs to the end.
pub open spec fn scopes_at(atoms: Seq<Seq<char>>, at: int) -> Option<Option<Seq<Seq<char>>>> {
    if !(0 <= at < atoms.len()) {
        None
    } else if atoms[at] == "-"@ && at + 1 == atoms.len() {
        Some(None)
    } else if atoms[at] == "+"@ {
        Some(Some(atoms.skip(at + 1)))
    } else {
        None
    }
}

/// The session that a record holds, if it holds one.
pub open spec fn session_of_atoms(atoms: Seq<Seq<char>>) -> Option<SessionView> {
    if atoms.len() < 2 || tag_provider(atoms[0]) is None {
        None
    } else {
        match optional_at(atoms, 2) {
            None => None,
            Some((refresh_token, after_refresh)) => match expiry_at(atoms, after_refresh) {
                None => None,
                Some((expires_at, after_expiry)) => match scopes_at(atoms, after_expiry) {
                    None => None,
                    Some(scopes) => Some(
                        SessionView {
                            provider: tag_provider(atoms[0])->Some_0,
                            access_token: atoms[1],
                            refresh_token,
                            expires_at,
                            scopes,
                        },
                    ),
                },
            },
        }
    }
}

/// The text that is written into the store for a session.
pub open spec fn encoded(session: SessionView) -> Seq<char> {
    frame(session_atoms(session))
}

/// The session that a text of the store holds, if it holds one.
pub open spec fn decoded(text: Seq<char>) -> Option<SessionView> {
    match unframe(text) {
        Some(atoms) => session_of_atoms(atoms),
        None => None,
    }
}

/// Why the credential store did not do what it was asked.
#[derive(Debug, Clone, Copy, PartialEq, Eq, Structural)]
pub enum StoreFailure {
    /// The store holds no entry under the name.
    NoEntry,
    /// Anything else: no store, no access, an entry that is no text.
    Other,
}

/// What reading the store yields, given what the store answered: the
/// session that the entry holds, and `TokenNotFound` where there is no
/// entry, the store failed, or the entry holds no session.
pub open spec fn read_outcome(entry: Result<Seq<char>, StoreFailure>) -> Result<
    SessionView,
    CredentialsError,
> {
    match entry {
        Ok(text) => match decoded(text) {
            Some(session) => Ok(session),
            None => Err(CredentialsError::TokenNotFound),
        },
        Err(_) => Err(CredentialsError::TokenNotFound),
    }
}

/// The marks and the provider tags are what they spell.
proof fn lemma_marks()
    ensures
        "+"@ != "-"@,
        "device"@ != "oauth"@,
        "+"@.len() == 1,
        "-"@.len() == 1,
{
    reveal_strlit("+");
    reveal_strlit("-");
    reveal_strlit("device");
    reveal_strlit("oauth");
    assert("+"@[0] != "-"@[0]);
    assert("device"@[0] != "oauth"@[0]);
}

/// The record of a session holds that session.
pub proof fn lemma_atoms_round_trip(session: SessionView)
    ensures
        session_of_atoms(session_atoms(session)) == Some(session),
{
    lemma_marks();
    let atoms = session_atoms(session);
    let head = seq![provider_tag(session.provider), session.access_token];
    let refresh = optional_atoms(session.refresh_token);
    let expiry = expiry_atoms(session.expires_at);
    let scopes = scope_atoms(session.scopes);
    assert(atoms =~= head + refresh + expiry + scopes);
    assert(atoms[0] == provider_tag(session.provider));
    assert(atoms[1] == session.access_token);
    assert(tag_provider(atoms[0]) == Some(session.provider));
    let a: int = 2;
    assert(atoms[a] == refresh[0]);
    let b: int = a + refresh.len();
    if session.refresh_token is Some {
        assert(atoms[a + 1] == refresh[1]);
    }
    assert(optional_at(atoms, a) == Some((session.refresh_token, b)));
    assert(atoms[b] == expiry[0]);
    let c: int = b + expiry.len();
    if session.expires_at is Some {
        let t = session.expires_at->Some_0;
        assert(atoms[b + 1] == expiry[1]);
        assert(atoms[b + 2] == expiry[2]);
        lemma_decimal_round_trip(t.seconds as nat);
        lemma_decimal_round_trip(t.nanos as nat);
    }
    assert(atoms[c] == scopes[0]);
    assert(expiry_at(atoms, b) == Some((session.expires_at, c)));
    if session.scopes is Some {
        assert(atoms.skip(c + 1) =~= session.scopes->Some_0);
    } else {
        assert(c + 1 == atoms.len());
    }
    assert(scopes_at(atoms, c) == Some(session.scopes));
}

/// Whatever session is stored, reading the store afterwards yields a session
/// equal to it in every field, absent fields included.
pub proof fn lemma_store_then_read(session: SessionView)
    ensures
        decoded(encoded(session)) == Some(session),
        read_outcome(Ok(encoded(session))) == Ok::<SessionView, CredentialsError>(session),
{
    lemma_frame_round_trip(session_atoms(session));
    lemma_atoms_round_trip(session);
}

/// The text to write into the store for `session`.
pub fn store_token(session: &AuthSession) -> (text: String)
    ensures
        text@ == encoded(session@),
        read_outcome(Ok(text@)) == Ok::<SessionView, CredentialsError>(session@),
{
    let mut atoms: Vec<String> = Vec::new();
    match session.provider {
        Provider::DeviceCode => atoms.push(String::from_str("device")),
        Provider::OAuth => atoms.push(String::from_str("oauth")),
    }
    atoms.push(session.access_token.clone());
    proof {
        assert(texts(atoms@) =~= seq![provider_tag(session@.provider), session@.access_token]);
    }
    let ghost head = texts(atoms@);
    match &session.refresh_token {
        Some(t) => {
            atoms.push(String::from_str("+"));
            atoms.push(t.clone());
        },
        None => {
            atoms.push(String::from_str("-"));
        },
    }
    proof {
        assert(texts(atoms@) =~= head + optional_atoms(session@.refresh_token));
    }
    let ghost upto_refresh = texts(atoms@);
    match &session.expires_at {
        Some(t) => {
            atoms.push(String::from_str("+"));
            atoms.push(decimal_string(t.seconds));
            atoms.push(decimal_string(t.nanos as u64));
        },
        None => {
            atoms.push(String::from_str("-"));
        },
    }
    proof {
        assert(texts(atoms@) =~= upto_refresh + expiry_atoms(session@.expires_at));
    }
    let ghost upto_expiry = texts(atoms@);
    match &session.scopes {
        Some(scopes) => {
            atoms.push(String::from_str("+"));
            let ghost marked = texts(atoms@);
            proof {
                assert(marked =~= upto_expiry + seq!["+"@]);
            }
            let mut i: usize = 0;
            while i < scopes.len()
                invariant
                    i <= scopes.len(),
                    texts(atoms@) == marked + texts(scopes@).take(i as int),
                decreases scopes.len() - i,
            {
                let ghost before = texts(atoms@);
                let scope = scopes[i].clone();
                atoms.push(scope);
                proof {
                    assert(texts(atoms@) =~= before.push(scope@));
                    assert(texts(scopes@).take(i + 1) =~= texts(scopes@).take(i as int).push(
                        scopes@[i as int]@,
                    ));
                    assert(texts(atoms@) =~= marked + texts(scopes@).take(i + 1));
                }
                i += 1;
            }
            proof {
                assert(texts(scopes@).take(scopes.len() as int) =~= texts(scopes@));
                assert(texts(atoms@) =~= upto_expiry + scope_atoms(session@.scopes));
            }
        },
        None => {
            atoms.push(String::from_str("-"));
            proof {
                assert(texts(atoms@) =~= upto_expiry + scope_atoms(session@.scopes));
            }
        },
    }
    proof {
        assert(texts(atoms@) =~= session_atoms(session@));
        lemma_store_then_read(session@);
    }
    write_record(&atoms)
}

/// Reads the number that `atom` writes, where it is one and fits in `u64`.
fn number_of_atom(atom: &String) -> (r: Option<u64>)
    ensures
        r is Some <==> decimal_value(atom@) is Some && decimal_value(atom@)->Some_0 <= u64::MAX,
        r is Some ==> decimal_value(atom@) == Some(r->Some_0 as nat),
{
    let chars = chars_of(atom.as_str());
    proof {
        assert(chars@.subrange(0, chars.len() as int) =~= atom@);
    }
    parse_decimal(&chars, 0, chars.len())
}

/// Reads the session from a record.
pub fn session_from_atoms(atoms: &Vec<String>) -> (r: Option<AuthSession>)
    ensures
        r is Some <==> session_of_atoms(texts(atoms@)) is Some,
        r is Some ==> r->Some_0@ == session_of_atoms(texts(atoms@))->Some_0,
{
    let n = atoms.len();
    if n < 2 {
        return None;
    }
    let provider = if str_eq(atoms[0].as_str(), "device") {
        Provider::DeviceCode
    } else if str_eq(atoms[0].as_str(), "oauth") {
        Provider::OAuth
    } else {
        return None;
    };
    let access_token = atoms[1].clone();
    let mut at: usize = 2;
    if at >= n {
        return None;
    }
    let refresh_token = if str_eq(atoms[at].as_str(), "-") {
        at = at + 1;
        None
    } else if str_eq(atoms[at].as_str(), "+") && at + 1 < n {
        let t = atoms[at + 1].clone();
        at = at + 2;
        Some(t)
    } else {
        return None;
    };
    if at >= n {
        return None;
    }
    let expires_at = if str_eq(atoms[at].as_str(), "-") {
        at = at + 1;
        None
    } else if str_eq(atoms[at].as_str(), "+") && at + 2 < n {
        let seconds = number_of_atom(&atoms[at + 1]);
        let nanos = number_of_atom(&atoms[at + 2]);
        match (seconds, nanos) {
            (Some(seconds), Some(nanos)) => {
                if nanos > u32::MAX as u64 {
                    return None;
                }
                at = at + 3;
                Some(Timestamp { seconds, nanos: nanos as u32 })
            },
            _ => {
                return None;
            },
        }
    } else {
        return None;
    };
    if at >= n {
        return None;
    }
    let scopes = if str_eq(atoms[at].as_str(), "-") && at + 1 == n {
        None
    } else if str_eq(atoms[at].as_str(), "+") {
        let mut found: Vec<String> = Vec::new();
        let mut i: usize = at + 1;
        while i < n
            invariant
                at + 1 <= i <= n,
                n == atoms.len(),
                texts(found@) == texts(atoms@).subrange(at + 1, i as int),
            decreases n - i,
        {
            let ghost before = texts(found@);
            let scope = atoms[i].clone();
            found.push(scope);
            proof {
                assert(texts(found@) =~= before.push(scope@));
                assert(texts(atoms@).subrange(at + 1, i + 1) =~= texts(atoms@).subrange(
                    at + 1,
                    i as int,
                ).push(atoms@[i as int]@));
            }
            i += 1;
        }
        proof {
            assert(texts(atoms@).subrange(at + 1, n as int) =~= texts(atoms@).skip(at + 1));
        }
        Some(found)
    } else {
        return None;
    };
    proof {
        lemma_marks();
    }
    Some(AuthSession { provider, access_token, refresh_token, expires_at, scopes })
}

/// The session that a text of the store holds, if it holds one.
pub fn decode_session(text: &str) -> (r: Option<AuthSession>)
    ensures
        r is Some <==> decoded(text@) is Some,
        r is Some ==> r->Some_0@ == decoded(text@)->Some_0,
{
    match read_record(text) {
        Some(atoms) => session_from_atoms(&atoms),
        None => None,
    }
}

/// The view of what reading the store returned.
pub open spec fn outcome_of(r: Result<AuthSession, CredentialsError>) -> Result<
    SessionView,
    CredentialsError,
> {
    match r {
        Ok(session) => Ok(session@),
        Err(e) => Err(e),
    }
}

/// The view of what the store answered to a read.
pub open spec fn entry_of(answer: Result<String, StoreFailure>) -> Result<Seq<char>, StoreFailure> {
    match answer {
        Ok(text) => Ok(text@),
        Err(failure) => Err(failure),
    }
}

impl CredentialsError {
    /// Classifies a failure of the store. No kind of failure is told apart
    /// from a missing entry.
    pub fn from_store(failure: StoreFailure) -> (e: CredentialsError)
        ensures
            e == CredentialsError::TokenNotFound,
    {
        match failure {
            StoreFailure::NoEntry => CredentialsError::TokenNotFound,
            StoreFailure::Other => CredentialsError::TokenNotFound,
        }
    }
}

/// Makes the result of reading the store out of what the store answered.
pub fn read_token(answer: Result<String, StoreFailure>) -> (r: Result<
    AuthSession,
    CredentialsError,
>)
    ensures
        outcome_of(r) == read_outcome(entry_of(answer)),
        answer is Err ==> r == Err::<AuthSession, CredentialsError>(
            CredentialsError::TokenNotFound,
        ),
{
    match answer {
        Ok(text) => match decode_session(text.as_str()) {
            Some(session) => Ok(session),
            None => Err(CredentialsError::TokenNotFound),
        },
        Err(failure) => Err(CredentialsError::from_store(failure)),
    }
}

/// Makes the result of deleting the entry out of what the store answered:
/// there must have been an entry, and the store must have removed it.
pub fn delete_token(answer: Result<(), StoreFailure>) -> (r: Result<(), CredentialsError>)
    ensures
        r == match answer {
            Ok(_) => Ok::<(), CredentialsError>(()),
            Err(_) => Err::<(), CredentialsError>(CredentialsError::TokenNotFound),
        },
{
    match answer {
        Ok(_) => Ok(()),
        Err(failure) => Err(CredentialsError::from_store(failure)),
    }
}

} // verus!
