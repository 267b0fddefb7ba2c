//! Semantic versions: parsing through the `semver` crate, and the exact
//! rendering used to name the frontend executable.

use vstd::prelude::*;

verus! {

/// What `semver::Version::parse` returns for a given string: `None` when the
/// string is not a valid semantic version, otherwise the release numbers and
/// the bytes of the pre-release and build identifiers.
pub uninterp spec fn semver_parse(s: Seq<char>) -> Option<(u64, u64, u64, Seq<u8>, Seq<u8>)>;

/// A parsed semantic version, held as plain values.
#[derive(Clone, Debug)]
pub struct ParsedVersion {
    pub major: u64,
    pub minor: u64,
    pub patch: u64,
    pub pre: Vec<u8>,
    pub build: Vec<u8>,
}

impl ParsedVersion {
    pub open spec fn parts(self) -> (u64, u64, u64, Seq<u8>, Seq<u8>) {
        (self.major, self.minor, self.patch, self.pre@, self.build@)
    }
}

/// Relies on `semver::Version::parse`: it returns `Ok` exactly on valid
/// semantic version strings, splitting them into major, minor and patch
/// numbers plus pre-release and build identifiers, and never panics.
#[verifier::external_body]
fn parse_semver_text(text: &str) -> (r: Option<(u64, u64, u64, Vec<u8>, Vec<u8>)>)
    ensures
        match r {
            Some(t) => semver_parse(text@) == Some((t.0, t.1, t.2, t.3@, t.4@)),
            None => semver_parse(text@) is None,
        },
{
    match semver::Version::parse(text) {
        Ok(v) => Some(
            (
                v.major,
                v.minor,
                v.patch,
                v.pre.as_str().as_bytes().to_vec(),
                v.build.as_str().as_bytes().to_vec(),
            ),
        ),
        Err(_) => None,
    }
}

/// Parses a version identifier, returning `None` exactly when it is not a
/// valid semantic version.
pub fn parse_version(text: &str) -> (r: Option<ParsedVersion>)
    ensures
        match r {
            Some(v) => semver_parse(text@) == Some(v.parts()),
            None => semver_parse(text@) is None,
        },
{
    match parse_semver_text(text) {
        Some(t) => Some(
            ParsedVersion { major: t.0, minor: t.1, patch: t.2, pre: t.3, build: t.4 },
        ),
        None => None,
    }
}

pub open spec fn dec_digit(n: u64) -> u8
    recommends
        n < 10,
{
    (0x30 + n) as u8
}

/// Decimal rendering of an unsigned number, most significant digit first.
pub open spec fn dec_bytes(n: u64) -> Seq<u8>
    decreases n,
{
    if n < 10 {
        seq![dec_digit(n)]
    } else {
        dec_bytes(n / 10).push(dec_digit(n % 10))
    }
}

/// Renders a number in decimal.
pub fn dec_render(n: u64) -> (r: Vec<u8>)
    ensures
        r@ == dec_bytes(n),
    decreases n,
{
    if n < 10 {
        let mut v: Vec<u8> = Vec::new();
        v.push(0x30 + (n as u8));
        proof {
            assert(v@ =~= dec_bytes(n));
        }
        v
    } else {
        let mut v = dec_render(n / 10);
        v.push(0x30 + ((n % 10) as u8));
        proof {
            assert(v@ =~= dec_bytes(n));
        }
        v
    }
}

/// Appends the bytes of `src` to `out`.
pub fn append_bytes(out: &mut Vec<u8>, src: &Vec<u8>)
    ensures
        final(out)@ == old(out)@ + src@,
{
    let n = src.len();
    let mut i: usize = 0;
    while i < n
        invariant
            i <= n,
            n == src@.len(),
            out@ == old(out)@ + src@.take(i as int),
        decreases n - i,
    {
        out.push(src[i]);
        proof {
            assert(old(out)@ + src@.take(i as int) + seq![src@[i as int]] =~= old(out)@
                + src@.take(i as int + 1));
        }
        i = i + 1;
    }
    proof {
        assert(old(out)@ + src@.take(n as int) =~= old(out)@ + src@);
    }
}

/// The byte rendering of a version: `major.minor.patch`, then `-pre` when a
/// pre-release identifier is present, then `+build` when build metadata is
/// present.
pub open spec fn version_bytes(v: ParsedVersion) -> Seq<u8> {
    dec_bytes(v.major) + seq![0x2eu8] + dec_bytes(v.minor) + seq![0x2eu8] + dec_bytes(v.patch) + (
    if v.pre@.len() > 0 {
        seq![0x2du8] + v.pre@
    } else {
        Seq::<u8>::empty()
    }) + (if v.build@.len() > 0 {
        seq![0x2bu8] + v.build@
    } else {
        Seq::<u8>::empty()
    })
}

/// Renders a version exactly as `version_bytes` describes.
pub fn render_version(v: &ParsedVersion) -> (r: Vec<u8>)
    ensures
        r@ == version_bytes(*v),
{
    let mut out = dec_render(v.major);
    out.push(0x2e);
    let minor = dec_render(v.minor);
    append_bytes(&mut out, &minor);
    out.push(0x2e);
    let patch = dec_render(v.patch);
    append_bytes(&mut out, &patch);
    if v.pre.len() > 0 {
        out.push(0x2d);
        append_bytes(&mut out, &v.pre);
    }
    if v.build.len() > 0 {
        out.push(0x2b);
        append_bytes(&mut out, &v.build);
    }
    proof {
        assert(out@ =~= version_bytes(*v));
    }
    out
}

/// Base name of the frontend executable, the bytes of `solc`.
pub open spec fn executable_base_name() -> Seq<u8> {
    seq![0x73u8, 0x6fu8, 0x6cu8, 0x63u8]
}

/// The deterministic naming convention for the frontend executable:
/// base name, a hyphen, the rendered version, and a platform suffix.
pub open spec fn tool_file_name_bytes(v: ParsedVersion, suffix: Seq<u8>) -> Seq<u8> {
    executable_base_name() + seq![0x2du8] + version_bytes(v) + suffix
}

/// Builds the frontend executable file name for a version.
pub fn tool_file_name(v: &ParsedVersion, suffix: &Vec<u8>) -> (r: Vec<u8>)
    ensures
        r@ == tool_file_name_bytes(*v, suffix@),
{
    let mut out: Vec<u8> = Vec::new();
    out.push(0x73);
    out.push(0x6f);
    out.push(0x6c);
    out.push(0x63);
    out.push(0x2d);
    let ver = render_version(v);
    append_bytes(&mut out, &ver);
    append_bytes(&mut out, suffix);
    proof {
        assert(out@ =~= tool_file_name_bytes(*v, suffix@));
    }
    out
}

} // verus!
