//! What the Google Secret Manager resolver computes around its call of
//! `gcloud`: the reference it accepts, the arguments it passes, and the
//! secret it makes of the command's output.

use vstd::prelude::*;
use vstd::string::*;
use vstd::utf8::{encode_utf8, valid_utf8};

use crate::secrets::SecretError;
use crate::text::{same_text, split_seq, split_text, views};

verus! {

/// Resolves provider credentials through the Google Cloud CLI.
pub struct GcpSecretManagerResolver;

/// The three names in `projects/<project>/secrets/<secret>/versions/<version>`.
pub struct SecretVersion {
    pub project: String,
    pub secret: String,
    pub version: String,
}

/// `reference` has the shape `projects/<p>/secrets/<s>/versions/<v>` with no
/// empty piece.
pub open spec fn is_full_reference(reference: Seq<char>) -> bool {
    let parts = split_seq(reference, '/');
    &&& parts.len() == 6
    &&& parts[0] == "projects"@
    &&& parts[2] == "secrets"@
    &&& parts[4] == "versions"@
    &&& forall|i: int| 0 <= i < 6 ==> (#[trigger] parts[i]).len() > 0
}

impl GcpSecretManagerResolver {
    /// Splits a full Secret Manager reference into its project, secret and
    /// version; anything else is an invalid reference.
    pub fn parse_reference(reference: &str) -> (r: Result<SecretVersion, SecretError>)
        ensures
            is_full_reference(reference@) ==> (r matches Ok(v) && v.project@ == split_seq(
                reference@,
                '/',
            )[1] && v.secret@ == split_seq(reference@, '/')[3] && v.version@ == split_seq(
                reference@,
                '/',
            )[5]),
            !is_full_reference(reference@) ==> r == Err::<SecretVersion, SecretError>(
                SecretError::InvalidReference,
            ),
    {
        let parts = split_text(reference, '/');
        let ghost pv = views(parts@);
        assert(pv.len() == parts@.len());
        if parts.len() != 6 {
            return Err(SecretError::InvalidReference);
        }
        assert(forall|i: int| 0 <= i < 6 ==> pv[i] == (#[trigger] parts@[i])@);
        if !same_text(parts[0].as_str(), "projects") || !same_text(parts[2].as_str(), "secrets")
            || !same_text(parts[4].as_str(), "versions") {
            return Err(SecretError::InvalidReference);
        }
        let mut i: usize = 0;
        while i < 6
            invariant
                parts@.len() == 6,
                pv == views(parts@),
                pv == split_seq(reference@, '/'),
                i <= 6,
                forall|j: int| 0 <= j < i ==> (#[trigger] pv[j]).len() > 0,
            decreases 6 - i,
        {
            assert(pv[i as int] == parts@[i as int]@);
            if parts[i].as_str().unicode_len() == 0 {
                assert(pv[i as int].len() == 0);
                return Err(SecretError::InvalidReference);
            }
            i = i + 1;
        }
        Ok(
            SecretVersion {
                project: parts[1].clone(),
                secret: parts[3].clone(),
                version: parts[5].clone(),
            },
        )
    }

    /// The arguments of `gcloud` that print the payload of `version`.
    pub fn access_arguments(version: &SecretVersion) -> (args: Vec<String>)
        ensures
            views(args@) == seq![
                "secrets"@,
                "versions"@,
                "access"@,
                version.version@,
                "--secret"@,
                version.secret@,
                "--project"@,
                version.project@,
                "--quiet"@,
            ],
    {
        let mut args: Vec<String> = Vec::new();
        args.push(String::from_str("secrets"));
        args.push(String::from_str("versions"));
        args.push(String::from_str("access"));
        args.push(version.version.clone());
        args.push(String::from_str("--secret"));
        args.push(version.secret.clone());
        args.push(String::from_str("--project"));
        args.push(version.project.clone());
        args.push(String::from_str("--quiet"));
        assert(views(args@) =~= seq![
            "secrets"@,
            "versions"@,
            "access"@,
            version.version@,
            "--secret"@,
            version.secret@,
            "--project"@,
            version.project@,
            "--quiet"@,
        ]);
        args
    }

    /// The secret that `gcloud` printed: its output as UTF-8 text without the
    /// line endings at its end.
    pub fn secret_from_output(stdout: Vec<u8>) -> (r: Result<String, SecretError>)
        ensures
            !valid_utf8(stdout@) ==> r == Err::<String, SecretError>(SecretError::InvalidPayload),
            valid_utf8(stdout@) ==> (r matches Ok(s) && exists|text: Seq<char>|
                encode_utf8(text) == stdout@ && s@ == trim_line_endings_seq(text)),
    {
        match utf8_text(stdout) {
            Some(text) => Ok(trim_line_endings(text.as_str())),
            None => Err(SecretError::InvalidPayload),
        }
    }
}

/// `s` without the carriage returns and line feeds at its end.
pub open spec fn trim_line_endings_seq(s: Seq<char>) -> Seq<char>
    decreases s.len(),
{
    if s.len() > 0 && (s.last() == '\r' || s.last() == '\n') {
        trim_line_endings_seq(s.drop_last())
    } else {
        s
    }
}

proof fn lemma_trim_line_endings_take(s: Seq<char>, k: int)
    requires
        0 <= k <= s.len(),
        forall|j: int| k <= j < s.len() ==> (#[trigger] s[j] == '\r' || s[j] == '\n'),
    ensures
        trim_line_endings_seq(s) == trim_line_endings_seq(s.take(k)),
    decreases s.len() - k,
{
    if k < s.len() {
        lemma_trim_line_endings_take(s.drop_last(), k);
        assert(s.drop_last().take(k) =~= s.take(k));
    } else {
        assert(s.take(k) =~= s);
    }
}

/// Removes every `\r` and `\n` at the end of `s`.
pub fn trim_line_endings(s: &str) -> (r: String)
    ensures
        r@ == trim_line_endings_seq(s@),
{
    let n = s.unicode_len();
    let mut k: usize = n;
    while k > 0 && (s.get_char(k - 1) == '\r' || s.get_char(k - 1) == '\n')
        invariant
            n == s@.len(),
            k <= n,
            forall|j: int| k <= j < n ==> (#[trigger] s@[j] == '\r' || s@[j] == '\n'),
        decreases k,
    {
        k = k - 1;
    }
    proof {
        lemma_trim_line_endings_take(s@, k as int);
        if k > 0 {
            assert(s@.take(k as int).last() == s@[k - 1]);
        }
        assert(s@.take(k as int) =~= s@.subrange(0, k as int));
    }
    String::from_str(s.substring_char(0, k))
}

/// Law: the resolved secret never ends with a line ending, and it is the
/// command's output up to some point.
pub proof fn law_secret_has_no_trailing_line_ending(s: Seq<char>)
    ensures
        trim_line_endings_seq(s).is_prefix_of(s),
        trim_line_endings_seq(s).len() > 0 ==> trim_line_endings_seq(s).last() != '\r'
            && trim_line_endings_seq(s).last() != '\n',
    decreases s.len(),
{
    if s.len() > 0 && (s.last() == '\r' || s.last() == '\n') {
        law_secret_has_no_trailing_line_ending(s.drop_last());
        let t = trim_line_endings_seq(s.drop_last());
        assert forall|i: int| 0 <= i < t.len() implies t[i] == s[i] by {
            assert(t[i] == s.drop_last()[i]);
        }
    }
}

/// Wraps `String::from_utf8`: it gives a string exactly when the bytes are
/// valid UTF-8 (as vstd's `valid_utf8` defines it), and the string's UTF-8
/// encoding is then those bytes.
#[verifier::external_body]
fn utf8_text(bytes: Vec<u8>) -> (r: Option<String>)
    ensures
        r is Some <==> valid_utf8(bytes@),
        r matches Some(s) ==> encode_utf8(s@) == bytes@,
{
    String::from_utf8(bytes).ok()
}

} // verus!
