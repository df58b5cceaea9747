//! The corpus parity run: glob selection of scenario ids (through `regex`),
//! its default output places and the plain-text summary of its reports.

use vstd::prelude::*;
use crate::edit_storm::{comma_pieces, split_commas};
use crate::load_envelope::{join, join_path};
use crate::parse::{trim, trim_range};
use crate::text::{chars_of, dec, dec_chars, owned, push_chars, push_str, slice_chars, string_of};

verus! {

/// `regex`'s meta characters, the ones `regex::escape` puts a backslash
/// before.
pub open spec fn is_meta(c: char) -> bool {
    c == '\\' || c == '.' || c == '+' || c == '*' || c == '?' || c == '(' || c == ')' || c == '|'
        || c == '[' || c == ']' || c == '{' || c == '}' || c == '^' || c == '$' || c == '#'
        || c == '&' || c == '-' || c == '~'
}

/// `s` with a backslash before each meta character.
pub open spec fn escaped(s: Seq<char>) -> Seq<char>
    decreases s.len(),
{
    if s.len() == 0 {
        Seq::empty()
    } else {
        escaped(s.drop_last()) + (if is_meta(s.last()) { seq!['\\', s.last()] } else { seq![s.last()] })
    }
}

/// `regex::escape`: per its source, every character of the text, with a
/// backslash before each of the characters `is_meta` lists.
#[verifier::external_body]
fn regex_escape(text: &str) -> (s: String)
    ensures
        s@ == escaped(text@),
{
    regex::escape(text)
}

/// Whether `regex::Regex::new` accepts a pattern.
pub uninterp spec fn regex_compiles(pattern: Seq<char>) -> bool;

/// Whether the regex compiled from `pattern` matches somewhere in `text`.
pub uninterp spec fn regex_matches(pattern: Seq<char>, text: Seq<char>) -> bool;

/// Compiles `pattern` with `regex::Regex::new` and tests `text` with
/// `is_match`. Compiling succeeds or fails by the pattern alone, and the
/// answer is the one named by `regex_matches`.
#[verifier::external_body]
fn regex_is_match(pattern: &str, text: &str) -> (r: Result<bool, regex::Error>)
    ensures
        r.is_ok() == regex_compiles(pattern@),
        r matches Ok(b) ==> b == regex_matches(pattern@, text@),
{
    let re = regex::Regex::new(pattern)?;
    Ok(re.is_match(text))
}

/// Regex text of a glob: anchored, `*` any run, `?` any one character,
/// everything else literal.
pub open spec fn glob_regex(p: Seq<char>) -> Seq<char> {
    "^"@ + glob_body(p) + "$"@
}

pub open spec fn glob_body(p: Seq<char>) -> Seq<char>
    decreases p.len(),
{
    if p.len() == 0 {
        Seq::empty()
    } else {
        glob_body(p.drop_last()) + (if p.last() == '*' {
            ".*"@
        } else if p.last() == '?' {
            "."@
        } else {
            escaped(seq![p.last()])
        })
    }
}

/// Turns a glob into the regex text that matches it.
pub fn glob_to_regex(pattern: &str) -> (s: String)
    ensures
        s@ == glob_regex(pattern@),
{
    let p = chars_of(pattern);
    let mut out: Vec<char> = Vec::new();
    push_str(&mut out, "^");
    let ghost head = out@;
    let mut i: usize = 0;
    while i < p.len()
        invariant
            0 <= i <= p@.len(),
            p@ == pattern@,
            out@ == head + glob_body(p@.subrange(0, i as int)),
        decreases p.len() - i,
    {
        assert(p@.subrange(0, i + 1).drop_last() =~= p@.subrange(0, i as int));
        let c = p[i];
        if c == '*' {
            push_str(&mut out, ".*");
        } else if c == '?' {
            push_str(&mut out, ".");
        } else {
            let mut one: Vec<char> = Vec::new();
            one.push(c);
            let e = regex_escape(string_of(&one).as_str());
            assert(one@ =~= seq![c]);
            push_str(&mut out, e.as_str());
        }
        i = i + 1;
        assert(out@ =~= head + glob_body(p@.subrange(0, i as int)));
    }
    assert(p@.subrange(0, p@.len() as int) =~= pattern@);
    push_str(&mut out, "$");
    string_of(&out)
}

/// The trimmed, nonempty pieces, in order.
pub open spec fn kept_globs(pieces: Seq<Seq<char>>) -> Seq<Seq<char>>
    decreases pieces.len(),
{
    if pieces.len() == 0 {
        Seq::empty()
    } else {
        kept_globs(pieces.drop_last()) + (if trim(pieces.last()).len() > 0 { seq![trim(pieces.last())] } else { Seq::empty() })
    }
}

/// The globs of a comma-separated list: each piece trimmed, empty ones
/// dropped.
pub open spec fn glob_list(s: Seq<char>) -> Seq<Seq<char>> {
    kept_globs(comma_pieces(s))
}

proof fn lemma_kept_prefix(pieces: Seq<Seq<char>>, n: int, g: Seq<char>)
    requires
        0 <= n <= pieces.len(),
        kept_globs(pieces.subrange(0, n)).contains(g),
    ensures
        kept_globs(pieces).contains(g),
    decreases pieces.len() - n,
{
    if n < pieces.len() {
        let a = pieces.subrange(0, n);
        let b = pieces.subrange(0, n + 1);
        assert(b.drop_last() =~= a);
        let j = choose|j: int| 0 <= j < kept_globs(a).len() && kept_globs(a)[j] == g;
        assert(kept_globs(b)[j] == g);
        lemma_kept_prefix(pieces, n + 1, g);
    } else {
        assert(pieces.subrange(0, n) =~= pieces);
    }
}

/// A set of id globs held as the regex texts they compile to; an empty set
/// matches every id.
pub struct GlobMatcher {
    patterns: Vec<String>,
}

impl GlobMatcher {
    /// The regex texts, one per glob.
    pub closed spec fn regexes(&self) -> Seq<Seq<char>> {
        self.patterns@.map_values(|p: String| p@)
    }

    /// Every regex text compiles.
    pub closed spec fn wf(&self) -> bool {
        forall|i: int| 0 <= i < self.patterns@.len() ==> regex_compiles(#[trigger] self.patterns@[i]@)
    }

    /// Builds the matcher of a comma-separated glob list; a glob whose
    /// regex does not compile is an error.
    pub fn new(globs: &str) -> (r: Result<GlobMatcher, regex::Error>)
        ensures
            r matches Ok(m) ==> m.wf() && m.regexes() == glob_list(globs@).map_values(|g: Seq<char>| glob_regex(g)),
            r is Err ==> exists|g: Seq<char>| glob_list(globs@).contains(g) && !regex_compiles(#[trigger] glob_regex(g)),
    {
        let x = chars_of(globs);
        let ranges = split_commas(&x);
        let ghost pieces = comma_pieces(globs@);
        assert(comma_pieces(x@) == pieces);
        let mut patterns: Vec<String> = Vec::new();
        let mut i: usize = 0;
        assert(patterns@.map_values(|p: String| p@) =~= kept_globs(pieces.subrange(0, 0)).map_values(|g: Seq<char>| glob_regex(g)));
        while i < ranges.len()
            invariant
                0 <= i <= ranges@.len(),
                x@ == globs@,
                pieces == comma_pieces(globs@),
                ranges@.len() == pieces.len(),
                forall|j: int| #![trigger ranges@[j]] 0 <= j < ranges@.len() ==> ranges@[j].0 <= ranges@[j].1 <= x@.len()
                    && x@.subrange(ranges@[j].0 as int, ranges@[j].1 as int) == pieces[j],
                forall|k: int| 0 <= k < patterns@.len() ==> regex_compiles(#[trigger] patterns@[k]@),
                patterns@.map_values(|p: String| p@) == kept_globs(pieces.subrange(0, i as int)).map_values(|g: Seq<char>| glob_regex(g)),
            decreases ranges.len() - i,
        {
            let (lo, hi) = ranges[i];
            let (a, b) = trim_range(&x, lo, hi);
            let ghost pre = pieces.subrange(0, i as int);
            let ghost nxt = pieces.subrange(0, i + 1);
            assert(nxt.drop_last() =~= pre);
            assert(nxt.last() == pieces[i as int]);
            let ghost t = trim(pieces[i as int]);
            assert(x@.subrange(a as int, b as int) == t);
            assert(kept_globs(nxt) == kept_globs(pre) + (if t.len() > 0 { seq![t] } else { Seq::<Seq<char>>::empty() }));
            let ghost before = patterns@.map_values(|p: String| p@);
            if a < b {
                let g = string_of(&slice_chars(&x, a, b));
                let re = glob_to_regex(g.as_str());
                match regex_is_match(re.as_str(), "") {
                    Err(e) => {
                        proof {
                            let kn = kept_globs(nxt);
                            assert(kn[kn.len() - 1] == t);
                            assert(kn.contains(t));
                            lemma_kept_prefix(pieces, i + 1, t);
                            assert(comma_pieces(globs@) == pieces);
                        }
                        return Err(e);
                    },
                    Ok(_) => {},
                }
                patterns.push(re);
                assert(patterns@.map_values(|p: String| p@) =~= before.push(glob_regex(t)));
            } else {
                assert(kept_globs(nxt) =~= kept_globs(pre));
            }
            i = i + 1;
            assert(patterns@.map_values(|p: String| p@) =~= kept_globs(pieces.subrange(0, i as int)).map_values(|g: Seq<char>| glob_regex(g)));
        }
        assert(pieces.subrange(0, pieces.len() as int) =~= pieces);
        Ok(GlobMatcher { patterns })
    }

    /// Whether an id matches: always for an empty set, else when some regex
    /// matches it.
    pub fn matches(&self, id: &str) -> (r: bool)
        requires
            self.wf(),
        ensures
            r == (self.regexes().len() == 0 || exists|i: int| 0 <= i < self.regexes().len() && regex_matches(#[trigger] self.regexes()[i], id@)),
    {
        if self.patterns.len() == 0 {
            return true;
        }
        let mut i: usize = 0;
        while i < self.patterns.len()
            invariant
                0 <= i <= self.patterns@.len(),
                self.wf(),
                forall|k: int| 0 <= k < i ==> !regex_matches(#[trigger] self.regexes()[k], id@),
            decreases self.patterns.len() - i,
        {
            assert(regex_compiles(self.patterns@[i as int]@));
            match regex_is_match(self.patterns[i].as_str(), id) {
                Ok(true) => {
                    assert(self.regexes()[i as int] == self.patterns@[i as int]@);
                    return true;
                },
                Ok(false) => {},
                Err(_) => {},
            }
            i = i + 1;
        }
        false
    }
}

/* ------------------------------ reports ------------------------------ */

/// What the summary reads of one phase of a scenario's parity run.
#[derive(Clone, Debug)]
pub struct PhaseOutcome {
    pub phase: String,
    pub divergences: usize,
    pub error: Option<String>,
    pub timed_out: bool,
}

/// What the summary reads of one scenario's parity report.
#[derive(Clone, Debug)]
pub struct ParityOutcome {
    pub scenario_id: String,
    pub skipped: bool,
    /// The report counts as an unexpected failure.
    pub unexpected_failure: bool,
    pub total_divergences: usize,
    pub phases_failed: usize,
    /// A divergence was expected for this scenario.
    pub expected_divergence: bool,
    pub phases: Vec<PhaseOutcome>,
}

pub open spec fn is_run(r: ParityOutcome) -> bool { !r.skipped }
pub open spec fn is_skipped(r: ParityOutcome) -> bool { r.skipped }
pub open spec fn is_failed(r: ParityOutcome) -> bool { r.unexpected_failure }
pub open spec fn is_passed(r: ParityOutcome) -> bool {
    !r.skipped && !r.unexpected_failure && r.total_divergences == 0 && r.phases_failed == 0
}
pub open spec fn is_expected(r: ParityOutcome) -> bool {
    !r.skipped && r.expected_divergence && r.phases_failed > 0
}

/// How many reports satisfy `p`.
pub open spec fn count(rs: Seq<ParityOutcome>, p: spec_fn(ParityOutcome) -> bool) -> nat
    decreases rs.len(),
{
    if rs.len() == 0 { 0 } else { count(rs.drop_last(), p) + (if p(rs.last()) { 1nat } else { 0nat }) }
}

/// Sum of the reports' divergences.
pub open spec fn total_divergences(rs: Seq<ParityOutcome>) -> nat
    decreases rs.len(),
{
    if rs.len() == 0 { 0 } else { total_divergences(rs.drop_last()) + rs.last().total_divergences as nat }
}

/// `s` padded on the right with spaces to `w` characters.
pub open spec fn padded(s: Seq<char>, w: nat) -> Seq<char> {
    if s.len() >= w { s } else { s + Seq::new((w - s.len()) as nat, |i: int| ' ') }
}

/// A phase is listed when it errored, diverged or timed out.
pub open spec fn phase_listed(ph: PhaseOutcome) -> bool {
    ph.error is Some || ph.divergences > 0 || ph.timed_out
}

pub open spec fn phase_line(id: Seq<char>, ph: PhaseOutcome) -> Seq<char> {
    "  "@ + padded(id, 40) + " "@ + padded(ph.phase@, 35) + " "@ + dec(ph.divergences as nat) + " divergences"@
        + (match ph.error { Some(e) => " error="@ + e@, None => Seq::empty() }) + "\n"@
}

/// Lines of the listed phases of a report.
pub open spec fn phase_lines(id: Seq<char>, phs: Seq<PhaseOutcome>) -> Seq<char>
    decreases phs.len(),
{
    if phs.len() == 0 {
        Seq::empty()
    } else {
        phase_lines(id, phs.drop_last()) + (if phase_listed(phs.last()) { phase_line(id, phs.last()) } else { Seq::empty() })
    }
}

/// Lines of the failed reports.
pub open spec fn failure_lines(rs: Seq<ParityOutcome>) -> Seq<char>
    decreases rs.len(),
{
    if rs.len() == 0 {
        Seq::empty()
    } else {
        failure_lines(rs.drop_last()) + (if rs.last().unexpected_failure {
            phase_lines(rs.last().scenario_id@, rs.last().phases@)
        } else {
            Seq::empty()
        })
    }
}

/// The parity summary text.
pub open spec fn summary_text(rs: Seq<ParityOutcome>) -> Seq<char> {
    "\n=== PARITY SUMMARY ===\n"@
        + "Scenarios run:      "@ + dec(count(rs, |r: ParityOutcome| is_run(r))) + "\n"@
        + "Scenarios passed:   "@ + dec(count(rs, |r: ParityOutcome| is_passed(r))) + "\n"@
        + "Scenarios failed:   "@ + dec(count(rs, |r: ParityOutcome| is_failed(r))) + "\n"@
        + "Scenarios skipped:  "@ + dec(count(rs, |r: ParityOutcome| is_skipped(r))) + " (expected divergence)\n"@
        + "Scenarios expected: "@ + dec(count(rs, |r: ParityOutcome| is_expected(r))) + " (run-and-noted)\n"@
        + "Total divergences:  "@ + dec(total_divergences(rs)) + "\n"@
        + (if count(rs, |r: ParityOutcome| is_failed(r)) > 0 { "\nFailures:\n"@ + failure_lines(rs) } else { Seq::empty() })
}

fn push_padded(v: &mut Vec<char>, s: &str, w: usize)
    ensures
        final(v)@ == old(v)@ + padded(s@, w as nat),
{
    let cs = chars_of(s);
    push_chars(v, &cs);
    if cs.len() < w {
        let ghost base = v@;
        let n = w - cs.len();
        let mut i: usize = 0;
        while i < n
            invariant
                0 <= i <= n,
                v@ == base + Seq::new(i as nat, |k: int| ' '),
            decreases n - i,
        {
            v.push(' ');
            i = i + 1;
            assert(v@ =~= base + Seq::new(i as nat, |k: int| ' '));
        }
        assert(v@ =~= old(v)@ + padded(s@, w as nat));
    }
}

fn push_count_line(v: &mut Vec<char>, label: &str, n: usize, tail: &str)
    ensures
        final(v)@ == old(v)@ + label@ + dec(n as nat) + tail@,
{
    push_str(v, label);
    push_chars(v, &dec_chars(n as u64));
    push_str(v, tail);
    assert(v@ =~= old(v)@ + label@ + dec(n as nat) + tail@);
}

fn push_phase_lines(v: &mut Vec<char>, id: &str, phs: &Vec<PhaseOutcome>)
    ensures
        final(v)@ == old(v)@ + phase_lines(id@, phs@),
{
    let ghost base = v@;
    let mut i: usize = 0;
    assert(phs@.subrange(0, 0) =~= Seq::<PhaseOutcome>::empty());
    while i < phs.len()
        invariant
            0 <= i <= phs@.len(),
            v@ == base + phase_lines(id@, phs@.subrange(0, i as int)),
        decreases phs.len() - i,
    {
        let ph = &phs[i];
        assert(phs@.subrange(0, i + 1).drop_last() =~= phs@.subrange(0, i as int));
        let ghost before = v@;
        if ph.error.is_some() || ph.divergences > 0 || ph.timed_out {
            push_str(v, "  ");
            push_padded(v, id, 40);
            push_str(v, " ");
            push_padded(v, ph.phase.as_str(), 35);
            push_str(v, " ");
            push_chars(v, &dec_chars(ph.divergences as u64));
            push_str(v, " divergences");
            match &ph.error {
                Some(e) => {
                    push_str(v, " error=");
                    push_str(v, e.as_str());
                },
                None => {},
            }
            push_str(v, "\n");
            assert(v@ =~= before + phase_line(id@, *ph));
        }
        i = i + 1;
        assert(v@ =~= base + phase_lines(id@, phs@.subrange(0, i as int)));
    }
    assert(phs@.subrange(0, phs@.len() as int) =~= phs@);
}

/// Renders the parity summary of a run's reports.
pub fn render_summary(reports: &Vec<ParityOutcome>) -> (s: String)
    requires
        total_divergences(reports@) <= usize::MAX,
    ensures
        s@ == summary_text(reports@),
{
    let mut run: usize = 0;
    let mut passed: usize = 0;
    let mut failed: usize = 0;
    let mut skipped: usize = 0;
    let mut expected: usize = 0;
    let mut total: usize = 0;
    let mut i: usize = 0;
    let ghost rs = reports@;
    while i < reports.len()
        invariant
            0 <= i <= rs.len(),
            rs == reports@,
            total_divergences(rs) <= usize::MAX,
            run == count(rs.subrange(0, i as int), |r: ParityOutcome| is_run(r)),
            passed == count(rs.subrange(0, i as int), |r: ParityOutcome| is_passed(r)),
            failed == count(rs.subrange(0, i as int), |r: ParityOutcome| is_failed(r)),
            skipped == count(rs.subrange(0, i as int), |r: ParityOutcome| is_skipped(r)),
            expected == count(rs.subrange(0, i as int), |r: ParityOutcome| is_expected(r)),
            total == total_divergences(rs.subrange(0, i as int)),
            run <= i, passed <= i, failed <= i, skipped <= i, expected <= i,
        decreases rs.len() - i,
    {
        let r = &reports[i];
        assert(rs.subrange(0, i + 1).drop_last() =~= rs.subrange(0, i as int));
        proof {
            lemma_total_prefix(rs, i as int + 1);
        }
        if !r.skipped { run = run + 1; }
        if r.skipped { skipped = skipped + 1; }
        if r.unexpected_failure { failed = failed + 1; }
        if !r.skipped && !r.unexpected_failure && r.total_divergences == 0 && r.phases_failed == 0 { passed = passed + 1; }
        if !r.skipped && r.expected_divergence && r.phases_failed > 0 { expected = expected + 1; }
        total = total + r.total_divergences;
        i = i + 1;
    }
    assert(rs.subrange(0, rs.len() as int) =~= rs);
    let mut v: Vec<char> = Vec::new();
    push_str(&mut v, "\n=== PARITY SUMMARY ===\n");
    push_count_line(&mut v, "Scenarios run:      ", run, "\n");
    push_count_line(&mut v, "Scenarios passed:   ", passed, "\n");
    push_count_line(&mut v, "Scenarios failed:   ", failed, "\n");
    push_count_line(&mut v, "Scenarios skipped:  ", skipped, " (expected divergence)\n");
    push_count_line(&mut v, "Scenarios expected: ", expected, " (run-and-noted)\n");
    push_count_line(&mut v, "Total divergences:  ", total, "\n");
    let ghost head = v@;
    if failed > 0 {
        push_str(&mut v, "\nFailures:\n");
        let ghost base = v@;
        let mut j: usize = 0;
        assert(rs.subrange(0, 0) =~= Seq::<ParityOutcome>::empty());
        while j < reports.len()
            invariant
                0 <= j <= rs.len(),
                rs == reports@,
                v@ == base + failure_lines(rs.subrange(0, j as int)),
            decreases rs.len() - j,
        {
            assert(rs.subrange(0, j + 1).drop_last() =~= rs.subrange(0, j as int));
            let ghost before = v@;
            if reports[j].unexpected_failure {
                push_phase_lines(&mut v, reports[j].scenario_id.as_str(), &reports[j].phases);
            }
            j = j + 1;
            assert(v@ =~= base + failure_lines(rs.subrange(0, j as int)));
        }
        assert(rs.subrange(0, rs.len() as int) =~= rs);
    }
    assert(v@ =~= summary_text(rs));
    string_of(&v)
}

proof fn lemma_total_prefix(rs: Seq<ParityOutcome>, n: int)
    requires
        0 <= n <= rs.len(),
    ensures
        total_divergences(rs.subrange(0, n)) <= total_divergences(rs),
    decreases rs.len() - n,
{
    if n < rs.len() {
        lemma_total_prefix(rs, n + 1);
        assert(rs.subrange(0, n + 1).drop_last() =~= rs.subrange(0, n));
    } else {
        assert(rs.subrange(0, n) =~= rs);
    }
}

/// `target/scenario-corpus/<label>/parity`, where the run writes its
/// reports unless told otherwise.
pub open spec fn spec_default_output_dir(label: Seq<char>) -> Seq<char> {
    join_path(join_path("target/scenario-corpus"@, label), "parity"@)
}

pub fn default_output_dir(label: &str) -> (s: String)
    ensures
        s@ == spec_default_output_dir(label@),
{
    let a = join("target/scenario-corpus", &chars_of(label));
    join(a.as_str(), &chars_of("parity"))
}

/// `<output dir>/fixtures`, where fixtures go unless told otherwise.
pub fn default_fixture_dir(output_dir: &str) -> (s: String)
    ensures
        s@ == join_path(output_dir@, "fixtures"@),
{
    join(output_dir, &chars_of("fixtures"))
}

/// Indices of the ids that the include set matches and the exclude set (if
/// any) does not, in order.
pub fn select_ids(ids: &Vec<String>, include_set: &GlobMatcher, exclude_set: &Option<GlobMatcher>) -> (v: Vec<usize>)
    requires
        include_set.wf(),
        exclude_set matches Some(m) ==> m.wf(),
    ensures
        forall|k: int| 0 <= k < v@.len() ==> #[trigger] v@[k] < ids@.len(),
        forall|j: int, k: int| 0 <= j < k < v@.len() ==> v@[j] < v@[k],
        forall|i: int| 0 <= i < ids@.len() ==> (v@.contains(i as usize) <==> selected(include_set, exclude_set, #[trigger] ids@[i]@)),
{
    let mut v: Vec<usize> = Vec::new();
    let mut i: usize = 0;
    while i < ids.len()
        invariant
            0 <= i <= ids@.len(),
            include_set.wf(),
            exclude_set matches Some(m) ==> m.wf(),
            forall|k: int| 0 <= k < v@.len() ==> #[trigger] v@[k] < i,
            forall|j: int, k: int| 0 <= j < k < v@.len() ==> v@[j] < v@[k],
            forall|t: int| 0 <= t < i ==> (v@.contains(t as usize) <==> selected(include_set, exclude_set, #[trigger] ids@[t]@)),
        decreases ids.len() - i,
    {
        let inc = include_set.matches(ids[i].as_str());
        let exc = match exclude_set {
            Some(m) => m.matches(ids[i].as_str()),
            None => false,
        };
        let ghost old_v = v@;
        if inc && !exc {
            v.push(i);
        }
        proof {
            assert forall|t: int| 0 <= t < i + 1 implies (v@.contains(t as usize) <==> selected(include_set, exclude_set, #[trigger] ids@[t]@)) by {
                if t < i {
                    if v@.contains(t as usize) {
                        let k = choose|k: int| 0 <= k < v@.len() && v@[k] == t as usize;
                        if k < old_v.len() { assert(old_v[k] == t as usize); } else { assert(v@[k] == i); }
                    }
                    if old_v.contains(t as usize) {
                        let k = choose|k: int| 0 <= k < old_v.len() && old_v[k] == t as usize;
                        assert(v@[k] == t as usize);
                    }
                } else {
                    if inc && !exc {
                        assert(v@[v@.len() - 1] == i);
                    } else if v@.contains(t as usize) {
                        let k = choose|k: int| 0 <= k < v@.len() && v@[k] == t as usize;
                        assert(old_v[k] < i);
                    }
                }
            }
        }
        i = i + 1;
    }
    v
}

/// An id is selected when the include set matches it and the exclude set,
/// if any, does not.
pub open spec fn selected(include_set: &GlobMatcher, exclude_set: &Option<GlobMatcher>, id: Seq<char>) -> bool {
    matches_spec(*include_set, id) && !(match exclude_set { Some(m) => matches_spec(*m, id), None => false })
}

pub open spec fn matches_spec(m: GlobMatcher, id: Seq<char>) -> bool {
    m.regexes().len() == 0 || exists|i: int| 0 <= i < m.regexes().len() && regex_matches(#[trigger] m.regexes()[i], id)
}

} // verus!
