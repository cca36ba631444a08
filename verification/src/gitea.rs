//! The git-host webhook adapter: its push-event payload shape, the
//! signature check over the raw request body, and the extraction of a
//! normalized trigger event from the payload's ref string.
//!
//! The HTTP plumbing — collecting the body, reading headers, decoding the
//! JSON — lives outside the crate; the decisions are all here: a request is
//! rejected before any parsing unless its HMAC-SHA256 hex digest matches,
//! and only refs of the form `refs/heads/<branch>` or `refs/tags/<tag>` are
//! accepted.

use crate::text::{push_char, slash_free, str_eq};
use crate::trigger::TriggeredInfo;
use vstd::prelude::*;
use vstd::string::StrSliceExecFns;
use vstd::string::StringSliceAdditionalSpecFns;

verus! {

/// Why a webhook request was rejected.  The HTTP layer answers with the
/// error's text and status 200: rejection is an answer, not a transport
/// failure.
#[derive(Debug)]
pub enum TriggerError {
    MissingContentType,
    InvalidContentType,
    MissingSignature,
    MissingSecret,
    SignatureMismatch,
    InvalidRef,
    Crypto,
}

impl TriggerError {
    /// The response text of this rejection.
    pub fn message(&self) -> (r: &str)
        ensures
            r@ == match self {
                TriggerError::MissingContentType => "missing content-type"@,
                TriggerError::InvalidContentType => "invalid content-type"@,
                TriggerError::MissingSignature => "missing signature"@,
                TriggerError::MissingSecret => "missing trigger_secret in config"@,
                TriggerError::SignatureMismatch => "signature error"@,
                TriggerError::InvalidRef => "invalid field \"ref\""@,
                TriggerError::Crypto => "crypto error"@,
            },
    {
        match self {
            TriggerError::MissingContentType => "missing content-type",
            TriggerError::InvalidContentType => "invalid content-type",
            TriggerError::MissingSignature => "missing signature",
            TriggerError::MissingSecret => "missing trigger_secret in config",
            TriggerError::SignatureMismatch => "signature error",
            TriggerError::InvalidRef => "invalid field \"ref\"",
            TriggerError::Crypto => "crypto error",
        }
    }
}

/// Requires a `Content-Type: application/json` header, as both the webhook
/// and the manual trigger endpoint do.
pub fn validate_content_type(ct: Option<&str>) -> (r: Result<(), TriggerError>)
    ensures
        match ct {
            None => r matches Err(e) && e is MissingContentType,
            Some(c) => if c@ == "application/json"@ {
                r is Ok
            } else {
                r matches Err(e) && e is InvalidContentType
            },
        },
{
    match ct {
        None => Err(TriggerError::MissingContentType),
        Some(c) => {
            if str_eq(c, "application/json") {
                Ok(())
            } else {
                Err(TriggerError::InvalidContentType)
            }
        },
    }
}

/// The HMAC-SHA256 digest of `data` under `key`: a function of the two
/// byte strings alone.
pub uninterp spec fn hmac_sha256_of(key: Seq<u8>, data: Seq<u8>) -> Seq<u8>;

/// The lowercase hexadecimal digit for a value below sixteen.
pub open spec fn hex_digit(n: u8) -> char {
    if n == 0 {
        '0'
    } else if n == 1 {
        '1'
    } else if n == 2 {
        '2'
    } else if n == 3 {
        '3'
    } else if n == 4 {
        '4'
    } else if n == 5 {
        '5'
    } else if n == 6 {
        '6'
    } else if n == 7 {
        '7'
    } else if n == 8 {
        '8'
    } else if n == 9 {
        '9'
    } else if n == 10 {
        'a'
    } else if n == 11 {
        'b'
    } else if n == 12 {
        'c'
    } else if n == 13 {
        'd'
    } else if n == 14 {
        'e'
    } else {
        'f'
    }
}

/// The lowercase hexadecimal rendering of a byte string: two digits per
/// byte, high nibble first.
pub open spec fn hex_of(bytes: Seq<u8>) -> Seq<char>
    decreases bytes.len(),
{
    if bytes.len() == 0 {
        Seq::empty()
    } else {
        seq![hex_digit(bytes.first() >> 4), hex_digit(bytes.first() & 0x0f)] + hex_of(
            bytes.drop_first(),
        )
    }
}

#[verifier::external_type_specification]
#[verifier::external_body]
pub struct ExErrorStack(openssl::error::ErrorStack);

/// Relies on openssl: `PKey::hmac`, a SHA-256 `Signer`, `update` and
/// `sign_to_vec` together compute the HMAC-SHA256 digest of `data` under
/// `key`, a function of the two byte strings alone, 32 bytes long as every
/// SHA-256 digest is.  `PKey::hmac` does not accept a key longer than
/// `i32::MAX` bytes.
#[verifier::external_body]
fn hmac_sha256(key: &[u8], data: &[u8]) -> (r: Result<Vec<u8>, openssl::error::ErrorStack>)
    requires
        key@.len() <= i32::MAX,
    ensures
        r matches Ok(d) ==> d@ == hmac_sha256_of(key@, data@) && d@.len() == 32,
{
    let pkey = openssl::pkey::PKey::hmac(key)?;
    let mut signer = openssl::sign::Signer::new(openssl::hash::MessageDigest::sha256(), &pkey)?;
    signer.update(data)?;
    signer.sign_to_vec()
}

fn hex_digit_char(d: u8) -> (c: char)
    requires
        d < 16,
    ensures
        c == hex_digit(d),
{
    if d == 0 {
        '0'
    } else if d == 1 {
        '1'
    } else if d == 2 {
        '2'
    } else if d == 3 {
        '3'
    } else if d == 4 {
        '4'
    } else if d == 5 {
        '5'
    } else if d == 6 {
        '6'
    } else if d == 7 {
        '7'
    } else if d == 8 {
        '8'
    } else if d == 9 {
        '9'
    } else if d == 10 {
        'a'
    } else if d == 11 {
        'b'
    } else if d == 12 {
        'c'
    } else if d == 13 {
        'd'
    } else if d == 14 {
        'e'
    } else {
        'f'
    }
}

/// Appending one byte to a hexadecimal rendering.
proof fn lemma_hex_of_push(bytes: Seq<u8>, b: u8)
    ensures
        hex_of(bytes.push(b)) == hex_of(bytes) + seq![hex_digit(b >> 4), hex_digit(b & 0x0f)],
    decreases bytes.len(),
{
    if bytes.len() == 0 {
        assert(bytes.push(b).first() == b);
        assert(bytes.push(b).drop_first() =~= bytes);
        assert(hex_of(bytes.push(b)) =~= hex_of(bytes) + seq![
            hex_digit(b >> 4),
            hex_digit(b & 0x0f),
        ]);
    } else {
        assert(bytes.push(b).first() == bytes.first());
        assert(bytes.push(b).drop_first() =~= bytes.drop_first().push(b));
        lemma_hex_of_push(bytes.drop_first(), b);
        assert(hex_of(bytes.push(b)) =~= hex_of(bytes) + seq![
            hex_digit(b >> 4),
            hex_digit(b & 0x0f),
        ]);
    }
}

/// A hexadecimal rendering has two digits per byte.
pub proof fn lemma_hex_of_len(bytes: Seq<u8>)
    ensures
        hex_of(bytes).len() == 2 * bytes.len(),
    decreases bytes.len(),
{
    if bytes.len() > 0 {
        lemma_hex_of_len(bytes.drop_first());
    }
}

/// Renders bytes in lowercase hexadecimal, two digits per byte, high
/// nibble first.
fn hex_encode(data: &[u8]) -> (r: String)
    ensures
        r@ == hex_of(data@),
{
    let mut r = String::new();
    let mut i: usize = 0;
    while i < data.len()
        invariant
            i <= data@.len(),
            r@ == hex_of(data@.take(i as int)),
        decreases data@.len() - i,
    {
        let b = data[i];
        proof {
            assert((b >> 4) < 16 && (b & 0x0f) < 16) by (bit_vector);
        }
        push_char(&mut r, hex_digit_char(b >> 4));
        push_char(&mut r, hex_digit_char(b & 0x0f));
        i = i + 1;
        proof {
            assert(data@.take(i as int) =~= data@.take(i as int - 1).push(data@[i as int - 1]));
            lemma_hex_of_push(data@.take(i as int - 1), data@[i as int - 1]);
        }
    }
    proof {
        assert(data@.take(data@.len() as int) =~= data@);
    }
    r
}

/// The hex HMAC-SHA256 signature of a payload under a shared secret, as
/// the webhook sender computes it: 64 digits.  Fails only when the crypto
/// backend does, and always on a key over `i32::MAX` bytes, which the
/// backend would not accept.
pub fn signature(key: &str, payload: &[u8]) -> (r: Result<String, TriggerError>)
    ensures
        r matches Ok(s) ==> s@ == hex_of(hmac_sha256_of(key.spec_bytes(), payload@)) && s@.len()
            == 64,
        r matches Err(e) ==> e is Crypto,
        key.spec_bytes().len() > i32::MAX ==> r is Err,
{
    let kb = key.as_bytes();
    if kb.len() > (i32::MAX as usize) {
        return Err(TriggerError::Crypto);
    }
    match hmac_sha256(kb, payload) {
        Ok(d) => {
            proof {
                lemma_hex_of_len(d@);
            }
            Ok(hex_encode(d.as_slice()))
        },
        Err(_) => Err(TriggerError::Crypto),
    }
}

/// Decides whether a header-carried signature matches the payload's own
/// HMAC-SHA256 hex digest under the shared secret.  A mismatch rejects the
/// request before any parsing.
pub fn signature_matches(key: &str, payload: &[u8], provided: &str) -> (r: Result<
    bool,
    TriggerError,
>)
    ensures
        r matches Ok(b) ==> b == (provided@ == hex_of(
            hmac_sha256_of(key.spec_bytes(), payload@),
        )),
        r matches Err(e) ==> e is Crypto,
        key.spec_bytes().len() > i32::MAX ==> r is Err,
{
    match signature(key, payload) {
        Ok(s) => Ok(str_eq(provided, s.as_str())),
        Err(e) => Err(e),
    }
}

/// The branch a ref string names: the remainder of `refs/heads/<branch>`,
/// where the branch itself contains no further separator.
pub open spec fn ref_branch(s: Seq<char>) -> Option<Seq<char>> {
    let p = "refs/heads/"@;
    if p.len() <= s.len() && s.subrange(0, p.len() as int) == p && slash_free(
        s.skip(p.len() as int),
    ) {
        Some(s.skip(p.len() as int))
    } else {
        None
    }
}

/// The tag a ref string names: the remainder of `refs/tags/<tag>`.
pub open spec fn ref_tag(s: Seq<char>) -> Option<Seq<char>> {
    let p = "refs/tags/"@;
    if p.len() <= s.len() && s.subrange(0, p.len() as int) == p && slash_free(
        s.skip(p.len() as int),
    ) {
        Some(s.skip(p.len() as int))
    } else {
        None
    }
}

fn has_prefix(s: &str, p: &str) -> (r: bool)
    ensures
        r == (p@.len() <= s@.len() && s@.subrange(0, p@.len() as int) == p@),
{
    let sl = s.unicode_len();
    let pl = p.unicode_len();
    if pl > sl {
        return false;
    }
    let mut i: usize = 0;
    while i < pl
        invariant
            i <= pl,
            pl == p@.len(),
            pl <= s@.len(),
            forall|j: int| 0 <= j < i ==> s@[j] == p@[j],
        decreases pl - i,
    {
        if s.get_char(i) != p.get_char(i) {
            proof {
                assert(s@.subrange(0, p@.len() as int)[i as int] == s@[i as int]);
            }
            return false;
        }
        i = i + 1;
    }
    proof {
        assert(s@.subrange(0, p@.len() as int) =~= p@);
    }
    true
}

fn is_slash_free(s: &str) -> (r: bool)
    ensures
        r == slash_free(s@),
{
    let n = s.unicode_len();
    let mut i: usize = 0;
    while i < n
        invariant
            i <= n,
            n == s@.len(),
            forall|j: int| 0 <= j < i ==> s@[j] != '/',
        decreases n - i,
    {
        if s.get_char(i) == '/' {
            return false;
        }
        i = i + 1;
    }
    true
}

/// Extracts the branch or tag a ref string names: `refs/heads/<branch>`
/// gives the branch and no tag, `refs/tags/<tag>` the tag and no branch;
/// every other shape is rejected.
pub fn parse_ref(r: &str) -> (res: Result<(Option<String>, Option<String>), TriggerError>)
    ensures
        ref_branch(r@) matches Some(b) ==> (res matches Ok(p) && p.0 matches Some(bs) && bs@ == b
            && p.1 is None),
        ref_tag(r@) matches Some(t) ==> (res matches Ok(p) && p.1 matches Some(ts) && ts@ == t
            && p.0 is None),
        ref_branch(r@) is None && ref_tag(r@) is None ==> (res matches Err(e) && e is InvalidRef),
{
    proof {
        reveal_strlit("refs/heads/");
        reveal_strlit("refs/tags/");
        if ref_branch(r@) is Some && ref_tag(r@) is Some {
            assert(r@.subrange(0, 11)[5] == r@[5]);
            assert(r@.subrange(0, 10)[5] == r@[5]);
            assert(false);
        }
    }
    let n = r.unicode_len();
    if has_prefix(r, "refs/heads/") {
        let suffix = r.substring_char(11, n);
        if is_slash_free(suffix) {
            proof {
                assert(suffix@ =~= r@.skip("refs/heads/"@.len() as int));
            }
            return Ok((Some(suffix.to_owned()), None));
        } else {
            proof {
                if ref_tag(r@) is Some {
                    assert(r@.subrange(0, 11)[5] == r@[5]);
                    assert(r@.subrange(0, 10)[5] == r@[5]);
                    assert(false);
                }
            }
            return Err(TriggerError::InvalidRef);
        }
    }
    if has_prefix(r, "refs/tags/") {
        let suffix = r.substring_char(10, n);
        if is_slash_free(suffix) {
            proof {
                assert(suffix@ =~= r@.skip("refs/tags/"@.len() as int));
            }
            return Ok((None, Some(suffix.to_owned())));
        } else {
            return Err(TriggerError::InvalidRef);
        }
    }
    Err(TriggerError::InvalidRef)
}


/// One commit of a push event.
pub struct Commit {
    pub id: String,
    pub message: String,
    pub url: String,
    pub author: Author,
    pub committer: Author,
    pub verification: Option<String>,
    pub timestamp: String,
    pub added: Option<Vec<String>>,
    pub removed: Option<Vec<String>>,
    pub modified: Option<Vec<String>>,
}

/// The repository a push event belongs to.
pub struct Repository {
    pub id: i32,
    pub owner: User,
    pub name: String,
    pub full_name: String,
    pub description: String,
    pub empty: bool,
    pub private: bool,
    pub fork: bool,
    pub template: bool,
    pub parent: Option<String>,
    pub mirror: bool,
    pub size: i32,
    pub html_url: String,
    pub ssh_url: String,
    pub clone_url: String,
    pub original_url: String,
    pub website: String,
    pub stars_count: i32,
    pub forks_count: i32,
    pub watchers_count: i32,
    pub open_issues_count: i32,
    pub open_pr_counter: i32,
    pub release_counter: i32,
    pub default_branch: String,
    pub archived: bool,
    pub created_at: String,
    pub updated_at: String,
    pub permissions: Permissions,
    pub has_issues: bool,
    pub internal_tracker: InternalTracker,
    pub has_wiki: bool,
    pub has_pull_requests: bool,
    pub ignore_whitespace_conflicts: bool,
    pub allow_merge_commits: bool,
    pub allow_rebase: bool,
    pub allow_rebase_explicit: bool,
    pub allow_squash_merge: bool,
    pub avatar_url: String,
}

/// A user as the push event reports it.
pub struct User {
    pub id: i32,
    pub login: String,
    pub full_name: String,
    pub email: String,
    pub avatar_url: String,
    pub language: String,
    pub is_admin: bool,
    pub last_login: String,
    pub created: String,
    pub username: String,
}

/// A commit author or committer.
pub struct Author {
    pub name: String,
    pub email: String,
    pub username: String,
}

/// The pushing user's rights on the repository.
pub struct Permissions {
    pub admin: bool,
    pub push: bool,
    pub pull: bool,
}

/// The repository's issue-tracker settings.
pub struct InternalTracker {
    pub enable_time_tracker: bool,
    pub allow_only_contributors_to_track_time: bool,
    pub enable_issue_dependencies: bool,
}

/// The push-event payload, as decoded from the webhook body.
pub struct GiteaForm {
    pub secret: String,
    pub _ref: String,
    pub before: String,
    pub after: String,
    pub compare_url: String,
    pub commits: Vec<Commit>,
    pub head_commit: Option<String>,
    pub repository: Repository,
    pub pusher: User,
    pub sender: User,
}

impl GiteaForm {
    /// The normalized trigger event this push describes: the repository's
    /// full name, and the branch or tag its ref string names; a push whose
    /// ref is neither shape is rejected.
    pub fn triggered_info(&self) -> (r: Result<TriggeredInfo, TriggerError>)
        ensures
            ref_branch(self._ref@) matches Some(b) ==> (r matches Ok(t) && t.branch matches Some(
                bs,
            ) && bs@ == b && t.repository@ == self.repository.full_name@ && t.tag is None
                && t.steps_name is None),
            ref_tag(self._ref@) matches Some(tg) ==> (r matches Ok(t) && t.tag matches Some(ts)
                && ts@ == tg && t.repository@ == self.repository.full_name@ && t.branch is None
                && t.steps_name is None),
            ref_branch(self._ref@) is None && ref_tag(self._ref@) is None ==> (r matches Err(e)
                && e is InvalidRef),
    {
        let (branch, tag) = match parse_ref(self._ref.as_str()) {
            Ok(p) => p,
            Err(e) => {
                return Err(e);
            },
        };
        Ok(
            TriggeredInfo {
                repository: self.repository.full_name.clone(),
                branch,
                tag,
                steps_name: None,
            },
        )
    }
}


} // verus!
