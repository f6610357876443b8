//! Toolchain abstraction for circuit compilation and witness generation.
//!
//! A toolchain handles compiler-side operations that are independent of the
//! proving backend.  The deterministic mock lives here; the adapter that
//! shells out to the real compiler binary wraps the configuration type and
//! the version parser defined here.

use vstd::prelude::*;

verus! {

use vstd::string::*;
use crate::BenchResult;

/// Output from a compilation operation.
#[derive(Debug, Clone)]
pub struct CompileArtifacts {
    /// Path of the compiled artifact.
    pub artifact_path: String,
    /// Compilation time in milliseconds.
    pub compile_time_ms: u64,
}

/// Output from witness generation.
#[derive(Debug, Clone)]
pub struct WitnessArtifact {
    /// Path of the generated witness file.
    pub witness_path: String,
    /// Witness generation time in milliseconds.
    pub witness_gen_time_ms: u64,
}

/// Trait for toolchain operations: compiling circuits and generating
/// witnesses, each timed.
pub trait Toolchain {
    /// The toolchain name.
    fn name(&self) -> &str;

    /// The toolchain version, if detectable.
    fn version(&self) -> BenchResult<String>;

    /// Compiles a project directory to an artifact.
    fn compile(&self, project_dir: &str) -> BenchResult<CompileArtifacts>;

    /// Generates a witness from an artifact and prover inputs.
    fn gen_witness(&self, artifact: &str, prover_toml: &str) -> BenchResult<WitnessArtifact>;

    /// Releases a generated witness.  The orchestrator calls this after
    /// every iteration, so no iteration observes another's transient
    /// witness; an implementation that wrote a file removes it here.
    fn discard_witness(&self, witness: WitnessArtifact);
}

/// ASCII whitespace, as found in tool version output.
pub open spec fn is_ws_c(c: char) -> bool {
    c == ' ' || c == '\t' || c == '\n' || c == '\r'
}

/// `s` without its leading whitespace.
pub open spec fn trim_front(s: Seq<char>) -> Seq<char>
    decreases s.len(),
{
    if s.len() > 0 && is_ws_c(s[0]) {
        trim_front(s.subrange(1, s.len() as int))
    } else {
        s
    }
}

/// `s` without its trailing whitespace.
pub open spec fn trim_back(s: Seq<char>) -> Seq<char>
    decreases s.len(),
{
    if s.len() > 0 && is_ws_c(s.last()) {
        trim_back(s.drop_last())
    } else {
        s
    }
}

/// `s` without leading and trailing whitespace.
pub open spec fn trimmed(s: Seq<char>) -> Seq<char> {
    trim_back(trim_front(s))
}

/// The longest whitespace-free prefix of `s`.
pub open spec fn lead_token(s: Seq<char>) -> Seq<char>
    decreases s.len(),
{
    if s.len() > 0 && !is_ws_c(s[0]) {
        seq![s[0]] + lead_token(s.subrange(1, s.len() as int))
    } else {
        Seq::empty()
    }
}

/// The first whitespace-separated word of `s`, after skipping leading
/// whitespace.
pub open spec fn first_token(s: Seq<char>) -> Seq<char> {
    lead_token(trim_front(s))
}

/// Whether `s` begins with `p`.
pub open spec fn starts_with(s: Seq<char>, p: Seq<char>) -> bool {
    s.len() >= p.len() && s.subrange(0, p.len() as int) == p
}

/// A decimal digit character.
pub open spec fn is_digit_c(c: char) -> bool {
    c == '0' || c == '1' || c == '2' || c == '3' || c == '4' || c == '5' || c == '6' || c == '7'
        || c == '8' || c == '9'
}

/// What `parse_nargo_version` extracts from version output: the version word
/// after a `nargo version = ` or `nargo ` prefix, a leading word that starts
/// with a digit, or the whole trimmed output as a fallback; nothing for
/// blank input or a prefix followed by nothing.
pub open spec fn nargo_version_of(s: Seq<char>) -> Option<Seq<char>> {
    let t = trimmed(s);
    if t.len() == 0 {
        None
    } else if starts_with(t, "nargo version = "@) {
        let rest = t.subrange("nargo version = "@.len() as int, t.len() as int);
        if trim_front(rest).len() == 0 {
            None
        } else {
            Some(first_token(rest))
        }
    } else if starts_with(t, "nargo "@) {
        let rest = t.subrange("nargo "@.len() as int, t.len() as int);
        if trim_front(rest).len() == 0 {
            None
        } else {
            Some(first_token(rest))
        }
    } else {
        if is_digit_c(t[0]) {
            Some(first_token(t))
        } else {
            Some(t)
        }
    }
}

/// Whether `c` is ASCII whitespace.
fn is_ws(c: char) -> (r: bool)
    ensures
        r == is_ws_c(c),
{
    c == ' ' || c == '\t' || c == '\n' || c == '\r'
}

proof fn lemma_trim_front_skip(s: Seq<char>, f: int)
    requires
        0 <= f <= s.len(),
        forall|i: int| 0 <= i < f ==> is_ws_c(s[i]),
    ensures
        trim_front(s) == trim_front(s.subrange(f, s.len() as int)),
    decreases f,
{
    if f > 0 {
        assert(is_ws_c(s[0]));
        let s1 = s.subrange(1, s.len() as int);
        lemma_trim_front_skip(s1, f - 1);
        assert(s1.subrange(f - 1, s1.len() as int) =~= s.subrange(f, s.len() as int));
    } else {
        assert(s.subrange(0, s.len() as int) =~= s);
    }
}

proof fn lemma_trim_back_cut(s: Seq<char>, l: int)
    requires
        0 <= l <= s.len(),
        forall|i: int| l <= i < s.len() ==> is_ws_c(s[i]),
    ensures
        trim_back(s) == trim_back(s.subrange(0, l)),
    decreases s.len() - l,
{
    if l < s.len() {
        assert(is_ws_c(s.last()));
        let s1 = s.drop_last();
        lemma_trim_back_cut(s1, l);
        assert(s1.subrange(0, l) =~= s.subrange(0, l));
    } else {
        assert(s.subrange(0, l) =~= s);
    }
}

proof fn lemma_lead_token_prefix(u: Seq<char>, e: int)
    requires
        0 <= e <= u.len(),
        forall|i: int| 0 <= i < e ==> !is_ws_c(u[i]),
        e == u.len() || is_ws_c(u[e]),
    ensures
        lead_token(u) == u.subrange(0, e),
    decreases e,
{
    if e == 0 {
        assert(u.subrange(0, 0) =~= Seq::<char>::empty());
    } else {
        let u1 = u.subrange(1, u.len() as int);
        lemma_lead_token_prefix(u1, e - 1);
        assert(seq![u[0]] + u1.subrange(0, e - 1) =~= u.subrange(0, e));
    }
}

/// Finds the first index at or after `from` holding a non-whitespace
/// character.
fn scan_non_ws(s: &str, from: usize) -> (f: usize)
    requires
        from <= s@.len(),
    ensures
        from <= f <= s@.len(),
        forall|i: int| from <= i < f ==> is_ws_c(s@[i]),
        f < s@.len() ==> !is_ws_c(s@[f as int]),
{
    let n = s.unicode_len();
    let mut f = from;
    while f < n && is_ws(s.get_char(f))
        invariant
            from <= f <= n,
            n == s@.len(),
            forall|i: int| from <= i < f ==> is_ws_c(s@[i]),
        decreases n - f,
    {
        f = f + 1;
    }
    f
}

/// Finds the first index at or after `from` holding whitespace.
fn scan_ws(s: &str, from: usize) -> (e: usize)
    requires
        from <= s@.len(),
    ensures
        from <= e <= s@.len(),
        forall|i: int| from <= i < e ==> !is_ws_c(s@[i]),
        e < s@.len() ==> is_ws_c(s@[e as int]),
{
    let n = s.unicode_len();
    let mut e = from;
    while e < n && !is_ws(s.get_char(e))
        invariant
            from <= e <= n,
            n == s@.len(),
            forall|i: int| from <= i < e ==> !is_ws_c(s@[i]),
        decreases n - e,
    {
        e = e + 1;
    }
    e
}

/// Returns the slice of `s` without leading and trailing whitespace.
fn trim_str<'a>(s: &'a str) -> (r: &'a str)
    ensures
        r@ == trimmed(s@),
{
    let n = s.unicode_len();
    let f = scan_non_ws(s, 0);
    let mut l = n;
    while l > f && is_ws(s.get_char(l - 1))
        invariant
            f <= l <= n,
            n == s@.len(),
            forall|i: int| l <= i < n ==> is_ws_c(s@[i]),
        decreases l,
    {
        l = l - 1;
    }
    proof {
        lemma_trim_front_skip(s@, f as int);
        let w = s@.subrange(f as int, s@.len() as int);
        lemma_trim_back_cut(w, l - f as int);
        assert(w.subrange(0, l - f as int) =~= s@.subrange(f as int, l as int));
        if l > f {
            assert(!is_ws_c(s@[l - 1]));
            let v = s@.subrange(f as int, l as int);
            assert(v.len() > 0 && !is_ws_c(v.last()));
        } else {
            assert(s@.subrange(f as int, l as int) =~= Seq::<char>::empty());
        }
    }
    s.substring_char(f, l)
}

/// Returns the first whitespace-separated word of `s`, if there is one.
fn first_word<'a>(s: &'a str) -> (r: Option<&'a str>)
    ensures
        r is None <==> trim_front(s@).len() == 0,
        r matches Some(w) ==> w@ == first_token(s@) && w@.len() > 0,
{
    let f = scan_non_ws(s, 0);
    proof {
        lemma_trim_front_skip(s@, f as int);
    }
    if f == s.unicode_len() {
        proof {
            assert(s@.subrange(f as int, s@.len() as int) =~= Seq::<char>::empty());
        }
        return None;
    }
    let e = scan_ws(s, f);
    proof {
        let w = s@.subrange(f as int, s@.len() as int);
        assert(w.len() > 0 && !is_ws_c(w[0]));
        lemma_lead_token_prefix(w, e - f as int);
        assert(w.subrange(0, e - f as int) =~= s@.subrange(f as int, e as int));
    }
    Some(s.substring_char(f, e))
}

/// Whether `s` begins with the prefix `p`.
fn str_starts_with(s: &str, p: &str) -> (r: bool)
    ensures
        r == starts_with(s@, p@),
{
    let n = s.unicode_len();
    let m = p.unicode_len();
    if n < m {
        return false;
    }
    let mut i: usize = 0;
    while i < m
        invariant
            i <= m <= n,
            n == s@.len(),
            m == p@.len(),
            forall|k: int| 0 <= k < i ==> s@[k] == p@[k],
        decreases m - i,
    {
        if s.get_char(i) != p.get_char(i) {
            return false;
        }
        i = i + 1;
    }
    proof {
        assert(s@.subrange(0, m as int) =~= p@);
    }
    true
}

/// Whether `c` is a decimal digit.
fn is_digit(c: char) -> (r: bool)
    ensures
        r == is_digit_c(c),
{
    c == '0' || c == '1' || c == '2' || c == '3' || c == '4' || c == '5' || c == '6' || c == '7'
        || c == '8' || c == '9'
}

/// Parses tool version output.
///
/// Accepted shapes: `nargo version = X.Y.Z ...`, `nargo X.Y.Z ...`, a bare
/// word starting with a digit, or any other non-blank text, which is
/// returned trimmed as it stands.  Blank input has no version.
pub fn parse_nargo_version(output: &str) -> (r: Option<String>)
    ensures
        r is None <==> nargo_version_of(output@) is None,
        r matches Some(v) ==> (nargo_version_of(output@) matches Some(sv) && v@ == sv),
{
    let t = trim_str(output);
    let tn = t.unicode_len();
    if tn == 0 {
        return None;
    }
    if str_starts_with(t, "nargo version = ") {
        let plen = "nargo version = ".unicode_len();
        let rest = t.substring_char(plen, tn);
        match first_word(rest) {
            Some(w) => {
                return Some(w.to_owned());
            },
            None => {
                return None;
            },
        }
    }
    if str_starts_with(t, "nargo ") {
        let plen = "nargo ".unicode_len();
        let rest = t.substring_char(plen, tn);
        match first_word(rest) {
            Some(w) => {
                return Some(w.to_owned());
            },
            None => {
                return None;
            },
        }
    }
    if is_digit(t.get_char(0)) {
        match first_word(t) {
            Some(w) => {
                return Some(w.to_owned());
            },
            None => {
                proof {
                    assert(trim_front(t@) == t@);
                }
                return None;
            },
        }
    }
    Some(t.to_owned())
}

/// The nargo toolchain's configuration and identity.  The adapter that runs
/// the real binary wraps this type.
#[derive(Debug, Clone)]
pub struct NargoToolchain {
    /// Path of the nargo binary.
    pub nargo_path: String,
    /// Timeout in seconds for toolchain operations.
    pub timeout_secs: u64,
}

impl NargoToolchain {
    /// A toolchain using `nargo` from the search path with a five-minute
    /// timeout.
    pub fn new() -> (r: NargoToolchain)
        ensures
            r.nargo_path@ == "nargo"@,
            r.timeout_secs == 300,
    {
        NargoToolchain { nargo_path: "nargo".to_owned(), timeout_secs: 300 }
    }

    /// A toolchain with a specific binary path.
    pub fn with_path(nargo_path: String) -> (r: NargoToolchain)
        ensures
            r.nargo_path == nargo_path,
            r.timeout_secs == 300,
    {
        NargoToolchain { nargo_path, timeout_secs: 300 }
    }

    /// Replaces the timeout.
    pub fn with_timeout(self, timeout_secs: u64) -> (r: NargoToolchain)
        ensures
            r.nargo_path == self.nargo_path,
            r.timeout_secs == timeout_secs,
    {
        NargoToolchain { timeout_secs, ..self }
    }

    /// The path of the nargo binary.
    pub fn nargo_path(&self) -> (r: &str)
        ensures
            r@ == self.nargo_path@,
    {
        self.nargo_path.as_str()
    }
}

impl Default for NargoToolchain {
    /// The default toolchain uses `nargo` from the search path.
    fn default() -> (r: NargoToolchain)
        ensures
            r.nargo_path@ == "nargo"@,
            r.timeout_secs == 300,
    {
        NargoToolchain::new()
    }
}

/// Mock toolchain for testing: returns configured fixed responses without
/// executing any command.
#[derive(Debug, Clone)]
pub struct MockToolchain {
    /// Name to report.
    pub mock_name: String,
    /// Version to report.
    pub mock_version: String,
    /// Compile output, when configured.
    pub compile_output: Option<CompileArtifacts>,
    /// Witness output, when configured.
    pub witness_output: Option<WitnessArtifact>,
    /// Whether operations fail.
    pub should_fail: bool,
}

impl Default for MockToolchain {
    /// A mock that reports `mock-nargo` and succeeds with fixed artifacts.
    fn default() -> (r: MockToolchain)
        ensures
            r.mock_name@ == "mock-nargo"@,
            r.mock_version@ == "0.38.0-mock"@,
            r.compile_output matches Some(c) && c.compile_time_ms == 50 && c.artifact_path@
                == "/tmp/mock-artifact.json"@,
            r.witness_output matches Some(w) && w.witness_gen_time_ms == 25 && w.witness_path@
                == "/tmp/mock-witness.gz"@,
            !r.should_fail,
    {
        MockToolchain {
            mock_name: "mock-nargo".to_owned(),
            mock_version: "0.38.0-mock".to_owned(),
            compile_output: Some(
                CompileArtifacts {
                    artifact_path: "/tmp/mock-artifact.json".to_owned(),
                    compile_time_ms: 50,
                },
            ),
            witness_output: Some(
                WitnessArtifact {
                    witness_path: "/tmp/mock-witness.gz".to_owned(),
                    witness_gen_time_ms: 25,
                },
            ),
            should_fail: false,
        }
    }
}

impl MockToolchain {
    /// A mock toolchain with the default values.
    pub fn new() -> (r: MockToolchain)
        ensures
            r.mock_name@ == "mock-nargo"@,
            r.mock_version@ == "0.38.0-mock"@,
            r.compile_output matches Some(c) && c.compile_time_ms == 50 && c.artifact_path@
                == "/tmp/mock-artifact.json"@,
            r.witness_output matches Some(w) && w.witness_gen_time_ms == 25 && w.witness_path@
                == "/tmp/mock-witness.gz"@,
            !r.should_fail,
    {
        MockToolchain::default()
    }

    /// Replaces the reported version.
    pub fn with_version(self, version: &str) -> (r: MockToolchain)
        ensures
            r.mock_version@ == version@,
            r.mock_name == self.mock_name,
            r.compile_output == self.compile_output,
            r.witness_output == self.witness_output,
            r.should_fail == self.should_fail,
    {
        MockToolchain { mock_version: version.to_owned(), ..self }
    }

    /// Makes all operations fail.
    pub fn failing(self) -> (r: MockToolchain)
        ensures
            r.should_fail,
            r.mock_name == self.mock_name,
            r.mock_version == self.mock_version,
    {
        MockToolchain { should_fail: true, ..self }
    }
}

impl Toolchain for MockToolchain {
    fn name(&self) -> &str {
        self.mock_name.as_str()
    }

    fn version(&self) -> BenchResult<String> {
        if self.should_fail {
            return Err(crate::BenchError::Message("mock toolchain failed".to_owned()));
        }
        Ok(self.mock_version.clone())
    }

    fn compile(&self, _project_dir: &str) -> BenchResult<CompileArtifacts> {
        if self.should_fail {
            return Err(crate::BenchError::Message("mock compile failed".to_owned()));
        }
        match &self.compile_output {
            Some(c) => Ok(c.clone()),
            None => Err(crate::BenchError::Message("no compile output configured".to_owned())),
        }
    }

    fn gen_witness(&self, _artifact: &str, _prover_toml: &str) -> BenchResult<WitnessArtifact> {
        if self.should_fail {
            return Err(crate::BenchError::Message("mock witness gen failed".to_owned()));
        }
        match &self.witness_output {
            Some(w) => Ok(w.clone()),
            None => Err(crate::BenchError::Message("no witness output configured".to_owned())),
        }
    }

    fn discard_witness(&self, _witness: WitnessArtifact) {
    }
}

} // verus!
