//! The sysfs PWM channel: reading its configuration from the attribute files,
//! and the order of attribute writes that moves a channel from its current
//! configuration to a requested one without ever asking the kernel for a
//! duty cycle longer than the period, and without changing timing or
//! polarity while the output is enabled.
use crate::text::{chars_of, dec_digits, lemma_parse_dec_digits, parse_unsigned, parse_unsigned_range};
use vstd::prelude::*;

verus! {

#[derive(Debug, Clone, Copy, PartialEq, Eq, Structural)]
pub enum PwmPolarity {
    Normal,
    Inversed,
}

/// A PWM channel's timing, enable state and polarity.
#[derive(Debug, Clone, Copy, PartialEq, Eq, Structural)]
pub struct PwmConfiguration {
    pub period_ns: u64,
    pub duty_cycle_ns: u64,
    pub enabled: bool,
    pub polarity: PwmPolarity,
}

/// One write to a channel attribute file (`enable`, `period`, `duty_cycle`,
/// `polarity`).
#[derive(Debug, Clone, Copy, PartialEq, Eq, Structural)]
pub enum PwmWrite {
    Enable(bool),
    Period(u64),
    DutyCycle(u64),
    Polarity(PwmPolarity),
}

/// Why a requested PWM configuration is refused.
#[derive(Debug, Clone, Copy, PartialEq, Eq, Structural)]
pub enum PwmConfigError {
    /// The period is zero.
    ZeroPeriod,
    /// The duty cycle is longer than the period.
    DutyCycleExceedsPeriod,
}

/// Which attribute file held a value that could not be read.
#[derive(Debug, Clone, Copy, PartialEq, Eq, Structural)]
pub enum PwmAttribute {
    Period,
    DutyCycle,
    Enable,
    Polarity,
}

pub open spec fn spec_validate(c: PwmConfiguration) -> Result<(), PwmConfigError> {
    if c.period_ns == 0 {
        Err(PwmConfigError::ZeroPeriod)
    } else if c.duty_cycle_ns > c.period_ns {
        Err(PwmConfigError::DutyCycleExceedsPeriod)
    } else {
        Ok(())
    }
}

/// Refuses a zero period and a duty cycle longer than the period.
pub fn validate_configuration(configuration: &PwmConfiguration) -> (r: Result<(), PwmConfigError>)
    ensures
        r == spec_validate(*configuration),
{
    if configuration.period_ns == 0 {
        Err(PwmConfigError::ZeroPeriod)
    } else if configuration.duty_cycle_ns > configuration.period_ns {
        Err(PwmConfigError::DutyCycleExceedsPeriod)
    } else {
        Ok(())
    }
}

/// The output must be switched off before anything changes.
pub open spec fn needs_disable(c: PwmConfiguration, t: PwmConfiguration) -> bool {
    c.enabled && (c.period_ns != t.period_ns || c.duty_cycle_ns != t.duty_cycle_ns || c.polarity
        != t.polarity || !t.enabled)
}

/// The period is written before the duty cycle when the period grows or the
/// new duty cycle would not fit the old period.
pub open spec fn expand_period_first(c: PwmConfiguration, t: PwmConfiguration) -> bool {
    t.period_ns > c.period_ns || t.duty_cycle_ns > c.period_ns
}

pub open spec fn write_if(cond: bool, w: PwmWrite) -> Seq<PwmWrite> {
    if cond {
        seq![w]
    } else {
        Seq::empty()
    }
}

pub open spec fn timing_writes(c: PwmConfiguration, t: PwmConfiguration) -> Seq<PwmWrite> {
    let p = write_if(c.period_ns != t.period_ns, PwmWrite::Period(t.period_ns));
    let d = write_if(c.duty_cycle_ns != t.duty_cycle_ns, PwmWrite::DutyCycle(t.duty_cycle_ns));
    if c.period_ns == t.period_ns && c.duty_cycle_ns == t.duty_cycle_ns {
        Seq::empty()
    } else if expand_period_first(c, t) {
        p + d
    } else {
        d + p
    }
}

/// The attribute writes that take a channel from `c` to `t`.
pub open spec fn spec_plan(c: PwmConfiguration, t: PwmConfiguration) -> Seq<PwmWrite> {
    write_if(needs_disable(c, t), PwmWrite::Enable(false)) + timing_writes(c, t) + write_if(
        c.polarity != t.polarity,
        PwmWrite::Polarity(t.polarity),
    ) + write_if(needs_disable(c, t) || c.enabled != t.enabled, PwmWrite::Enable(t.enabled))
}

fn push_if(out: &mut Vec<PwmWrite>, cond: bool, w: PwmWrite)
    ensures
        final(out)@ == old(out)@ + write_if(cond, w),
{
    if cond {
        out.push(w);
    }
    assert(final(out)@ =~= old(out)@ + write_if(cond, w));
}

/// The writes that move a channel from `current` to `target`, after checking
/// that `target` is a configuration the kernel accepts.
pub fn plan_configuration(current: &PwmConfiguration, target: &PwmConfiguration) -> (r: Result<
    Vec<PwmWrite>,
    PwmConfigError,
>)
    ensures
        match r {
            Ok(plan) => spec_validate(*target) is Ok && plan@ == spec_plan(*current, *target),
            Err(e) => spec_validate(*target) == Err::<(), PwmConfigError>(e),
        },
{
    match validate_configuration(target) {
        Err(e) => return Err(e),
        Ok(()) => {},
    }
    let c = *current;
    let t = *target;
    let disable = c.enabled && (c.period_ns != t.period_ns || c.duty_cycle_ns != t.duty_cycle_ns
        || c.polarity != t.polarity || !t.enabled);
    let mut plan: Vec<PwmWrite> = Vec::new();
    push_if(&mut plan, disable, PwmWrite::Enable(false));
    if !(c.period_ns == t.period_ns && c.duty_cycle_ns == t.duty_cycle_ns) {
        if t.period_ns > c.period_ns || t.duty_cycle_ns > c.period_ns {
            push_if(&mut plan, c.period_ns != t.period_ns, PwmWrite::Period(t.period_ns));
            push_if(&mut plan, c.duty_cycle_ns != t.duty_cycle_ns, PwmWrite::DutyCycle(t.duty_cycle_ns));
        } else {
            push_if(&mut plan, c.duty_cycle_ns != t.duty_cycle_ns, PwmWrite::DutyCycle(t.duty_cycle_ns));
            push_if(&mut plan, c.period_ns != t.period_ns, PwmWrite::Period(t.period_ns));
        }
    }
    push_if(&mut plan, c.polarity != t.polarity, PwmWrite::Polarity(t.polarity));
    push_if(&mut plan, disable || c.enabled != t.enabled, PwmWrite::Enable(t.enabled));
    assert(plan@ =~= spec_plan(c, t));
    Ok(plan)
}

/// The configuration requested by `set_period_ns`: the current one with a new period.
pub fn with_period(current: &PwmConfiguration, period_ns: u64) -> (r: PwmConfiguration)
    ensures
        r == (PwmConfiguration { period_ns, ..*current }),
{
    PwmConfiguration { period_ns, ..*current }
}

/// The configuration requested by `set_duty_cycle_ns`: the current one with a
/// new duty cycle.
pub fn with_duty_cycle(current: &PwmConfiguration, duty_cycle_ns: u64) -> (r: PwmConfiguration)
    ensures
        r == (PwmConfiguration { duty_cycle_ns, ..*current }),
{
    PwmConfiguration { duty_cycle_ns, ..*current }
}

/// The channel after one attribute write.
pub open spec fn apply_write(s: PwmConfiguration, w: PwmWrite) -> PwmConfiguration {
    match w {
        PwmWrite::Enable(e) => PwmConfiguration { enabled: e, ..s },
        PwmWrite::Period(p) => PwmConfiguration { period_ns: p, ..s },
        PwmWrite::DutyCycle(d) => PwmConfiguration { duty_cycle_ns: d, ..s },
        PwmWrite::Polarity(p) => PwmConfiguration { polarity: p, ..s },
    }
}

/// The channel after a sequence of attribute writes.
pub open spec fn apply_writes(s: PwmConfiguration, ws: Seq<PwmWrite>) -> PwmConfiguration
    decreases ws.len(),
{
    if ws.len() == 0 {
        s
    } else {
        apply_writes(apply_write(s, ws[0]), ws.drop_first())
    }
}

/// Every state the channel passes through keeps the duty cycle within the period.
pub open spec fn timing_safe_run(s: PwmConfiguration, ws: Seq<PwmWrite>) -> bool
    decreases ws.len(),
{
    s.duty_cycle_ns <= s.period_ns && (ws.len() == 0 || timing_safe_run(
        apply_write(s, ws[0]),
        ws.drop_first(),
    ))
}

/// Period, duty cycle and polarity are only written while the output is off.
pub open spec fn quiet_run(s: PwmConfiguration, ws: Seq<PwmWrite>) -> bool
    decreases ws.len(),
{
    ws.len() == 0 || ((ws[0] is Enable || !s.enabled) && quiet_run(
        apply_write(s, ws[0]),
        ws.drop_first(),
    ))
}

proof fn lemma_apply_concat(s: PwmConfiguration, a: Seq<PwmWrite>, b: Seq<PwmWrite>)
    ensures
        apply_writes(s, a + b) == apply_writes(apply_writes(s, a), b),
        timing_safe_run(s, a + b) == (timing_safe_run(s, a) && timing_safe_run(apply_writes(s, a), b)),
        quiet_run(s, a + b) == (quiet_run(s, a) && quiet_run(apply_writes(s, a), b)),
    decreases a.len(),
{
    if a.len() == 0 {
        assert(a + b =~= b);
        if b.len() > 0 {
            assert(timing_safe_run(s, b) ==> s.duty_cycle_ns <= s.period_ns);
        }
    } else {
        let s1 = apply_write(s, a[0]);
        lemma_apply_concat(s1, a.drop_first(), b);
        assert((a + b).drop_first() =~= a.drop_first() + b);
        assert((a + b)[0] == a[0]);
        if a.drop_first().len() == 0 {
            assert(apply_writes(s1, a.drop_first()) == s1);
        }
    }
}

proof fn lemma_single(s: PwmConfiguration, w: PwmWrite)
    ensures
        apply_writes(s, seq![w]) == apply_write(s, w),
        timing_safe_run(s, seq![w]) == (s.duty_cycle_ns <= s.period_ns && apply_write(s, w).duty_cycle_ns
            <= apply_write(s, w).period_ns),
        quiet_run(s, seq![w]) == (w is Enable || !s.enabled),
{
    let e = Seq::<PwmWrite>::empty();
    assert(seq![w].drop_first() =~= e);
    let s1 = apply_write(s, w);
    assert(apply_writes(s1, e) == s1);
    assert(timing_safe_run(s1, e) == (s1.duty_cycle_ns <= s1.period_ns));
    assert(quiet_run(s1, e));
}

proof fn lemma_write_if(s: PwmConfiguration, cond: bool, w: PwmWrite)
    ensures
        apply_writes(s, write_if(cond, w)) == if cond { apply_write(s, w) } else { s },
        timing_safe_run(s, write_if(cond, w)) == (s.duty_cycle_ns <= s.period_ns && (cond ==> apply_write(
            s,
            w,
        ).duty_cycle_ns <= apply_write(s, w).period_ns)),
        quiet_run(s, write_if(cond, w)) == (cond ==> (w is Enable || !s.enabled)),
{
    if cond {
        lemma_single(s, w);
    }
}

/// The timing step alone, for any current and target timing that each keep
/// the duty cycle within the period: the period is written (with the
/// target's) exactly when it differs, the duty cycle likewise, each at most
/// once; after every write the duty cycle stays within the period; the step
/// ends at the target's timing and touches nothing else; and when both
/// already agree nothing is written.
pub proof fn law_timing_writes_keep_duty_within_period(current: PwmConfiguration, target: PwmConfiguration)
    requires
        current.duty_cycle_ns <= current.period_ns,
        target.duty_cycle_ns <= target.period_ns,
    ensures
        timing_safe_run(current, timing_writes(current, target)),
        apply_writes(current, timing_writes(current, target)) == (PwmConfiguration {
            period_ns: target.period_ns,
            duty_cycle_ns: target.duty_cycle_ns,
            ..current
        }),
        timing_writes(current, target).contains(PwmWrite::Period(target.period_ns)) <==> current.period_ns
            != target.period_ns,
        timing_writes(current, target).contains(PwmWrite::DutyCycle(target.duty_cycle_ns))
            <==> current.duty_cycle_ns != target.duty_cycle_ns,
        timing_writes(current, target).len() == (if current.period_ns != target.period_ns {
            1int
        } else {
            0int
        }) + (if current.duty_cycle_ns != target.duty_cycle_ns {
            1int
        } else {
            0int
        }),
        forall|i: int|
            0 <= i < timing_writes(current, target).len() ==> (#[trigger] timing_writes(current, target)[i]
                == PwmWrite::Period(target.period_ns) || timing_writes(current, target)[i] == PwmWrite::DutyCycle(
                target.duty_cycle_ns,
            )),
{
    let c = current;
    let t = target;
    let p = write_if(c.period_ns != t.period_ns, PwmWrite::Period(t.period_ns));
    let d = write_if(c.duty_cycle_ns != t.duty_cycle_ns, PwmWrite::DutyCycle(t.duty_cycle_ns));
    let b = timing_writes(c, t);
    if c.period_ns == t.period_ns && c.duty_cycle_ns == t.duty_cycle_ns {
        assert(b =~= Seq::<PwmWrite>::empty());
        assert(apply_writes(c, b) == c);
        assert(timing_safe_run(c, b));
    } else if expand_period_first(c, t) {
        lemma_write_if(c, c.period_ns != t.period_ns, PwmWrite::Period(t.period_ns));
        let s2 = apply_writes(c, p);
        lemma_write_if(s2, c.duty_cycle_ns != t.duty_cycle_ns, PwmWrite::DutyCycle(t.duty_cycle_ns));
        lemma_apply_concat(c, p, d);
        if c.period_ns != t.period_ns {
            assert(b[0] == PwmWrite::Period(t.period_ns));
        }
        if c.duty_cycle_ns != t.duty_cycle_ns {
            assert(b[b.len() - 1] == PwmWrite::DutyCycle(t.duty_cycle_ns));
        }
    } else {
        lemma_write_if(c, c.duty_cycle_ns != t.duty_cycle_ns, PwmWrite::DutyCycle(t.duty_cycle_ns));
        let s2 = apply_writes(c, d);
        lemma_write_if(s2, c.period_ns != t.period_ns, PwmWrite::Period(t.period_ns));
        lemma_apply_concat(c, d, p);
        if c.duty_cycle_ns != t.duty_cycle_ns {
            assert(b[0] == PwmWrite::DutyCycle(t.duty_cycle_ns));
        }
        if c.period_ns != t.period_ns {
            assert(b[b.len() - 1] == PwmWrite::Period(t.period_ns));
        }
    }
    assert(apply_writes(c, b) =~= (PwmConfiguration { period_ns: t.period_ns, duty_cycle_ns: t.duty_cycle_ns, ..c }));
}

/// Running the plan for a valid target ends in exactly the target
/// configuration; every intermediate state keeps the duty cycle within the
/// period, provided the channel starts in such a state; and the period, duty
/// cycle and polarity only change while the output is disabled.
pub proof fn law_plan_reaches_target_safely(current: PwmConfiguration, target: PwmConfiguration)
    requires
        spec_validate(target) is Ok,
        current.duty_cycle_ns <= current.period_ns,
    ensures
        apply_writes(current, spec_plan(current, target)) == target,
        timing_safe_run(current, spec_plan(current, target)),
        quiet_run(current, spec_plan(current, target)),
{
    let c = current;
    let t = target;
    let nd = needs_disable(c, t);
    let a = write_if(nd, PwmWrite::Enable(false));
    let b = timing_writes(c, t);
    let pol = write_if(c.polarity != t.polarity, PwmWrite::Polarity(t.polarity));
    let e = write_if(nd || c.enabled != t.enabled, PwmWrite::Enable(t.enabled));
    lemma_write_if(c, nd, PwmWrite::Enable(false));
    let s1 = apply_writes(c, a);
    assert(s1.period_ns == c.period_ns && s1.duty_cycle_ns == c.duty_cycle_ns && s1.polarity
        == c.polarity);
    assert(s1.enabled == (c.enabled && !nd));
    let p = write_if(c.period_ns != t.period_ns, PwmWrite::Period(t.period_ns));
    let d = write_if(c.duty_cycle_ns != t.duty_cycle_ns, PwmWrite::DutyCycle(t.duty_cycle_ns));
    if c.period_ns == t.period_ns && c.duty_cycle_ns == t.duty_cycle_ns {
        assert(b =~= Seq::<PwmWrite>::empty());
        assert(apply_writes(s1, b) == s1);
    } else if expand_period_first(c, t) {
        lemma_write_if(s1, c.period_ns != t.period_ns, PwmWrite::Period(t.period_ns));
        let s2 = apply_writes(s1, p);
        lemma_write_if(s2, c.duty_cycle_ns != t.duty_cycle_ns, PwmWrite::DutyCycle(t.duty_cycle_ns));
        lemma_apply_concat(s1, p, d);
    } else {
        lemma_write_if(s1, c.duty_cycle_ns != t.duty_cycle_ns, PwmWrite::DutyCycle(t.duty_cycle_ns));
        let s2 = apply_writes(s1, d);
        lemma_write_if(s2, c.period_ns != t.period_ns, PwmWrite::Period(t.period_ns));
        lemma_apply_concat(s1, d, p);
    }
    let s2 = apply_writes(s1, b);
    assert(s2.period_ns == t.period_ns && s2.duty_cycle_ns == t.duty_cycle_ns);
    assert(s2.enabled == s1.enabled && s2.polarity == c.polarity);
    lemma_write_if(s2, c.polarity != t.polarity, PwmWrite::Polarity(t.polarity));
    let s3 = apply_writes(s2, pol);
    lemma_write_if(s3, nd || c.enabled != t.enabled, PwmWrite::Enable(t.enabled));
    lemma_apply_concat(c, a, b);
    lemma_apply_concat(c, a + b, pol);
    lemma_apply_concat(c, a + b + pol, e);
    assert(apply_writes(c, spec_plan(c, t)) =~= t);
}

pub open spec fn spec_parse_enabled(raw: Seq<char>) -> Option<bool> {
    if raw == seq!['0'] {
        Some(false)
    } else if raw == seq!['1'] {
        Some(true)
    } else {
        None
    }
}

pub open spec fn spec_parse_polarity(raw: Seq<char>) -> Option<PwmPolarity> {
    if raw == "normal"@ {
        Some(PwmPolarity::Normal)
    } else if raw == "inversed"@ || raw == "inverse"@ || raw == "inverted"@ {
        Some(PwmPolarity::Inversed)
    } else {
        None
    }
}

/// The text written to the `enable` attribute.
pub open spec fn spec_enable_value(enabled: bool) -> Seq<char> {
    if enabled {
        seq!['1']
    } else {
        seq!['0']
    }
}

/// The text written to the `polarity` attribute.
pub open spec fn spec_polarity_value(p: PwmPolarity) -> Seq<char> {
    match p {
        PwmPolarity::Normal => "normal"@,
        PwmPolarity::Inversed => "inversed"@,
    }
}

/// The text written to an attribute file for a write.
pub open spec fn spec_write_value(w: PwmWrite) -> Seq<char> {
    match w {
        PwmWrite::Enable(e) => spec_enable_value(e),
        PwmWrite::Period(p) => dec_digits(p as nat),
        PwmWrite::DutyCycle(d) => dec_digits(d as nat),
        PwmWrite::Polarity(p) => spec_polarity_value(p),
    }
}

fn seq_eq(v: &[char], s: &str) -> (b: bool)
    ensures
        b == (v@ == s@),
{
    let w = chars_of(s);
    if v.len() != w.len() {
        return false;
    }
    let mut i: usize = 0;
    while i < v.len()
        invariant
            v@.len() == w@.len(),
            w@ == s@,
            i <= v@.len(),
            forall|j: int| 0 <= j < i ==> v@[j] == w@[j],
        decreases v.len() - i,
    {
        if v[i] != w[i] {
            return false;
        }
        i = i + 1;
    }
    assert(v@ =~= w@);
    true
}

/// Reads the `enable` attribute.
pub fn parse_enabled(raw: &str) -> (r: Option<bool>)
    ensures
        r == spec_parse_enabled(raw@),
{
    let v = chars_of(raw);
    if v.len() == 1 && v[0] == '0' {
        assert(v@ =~= seq!['0']);
        Some(false)
    } else if v.len() == 1 && v[0] == '1' {
        assert(v@ =~= seq!['1']);
        Some(true)
    } else {
        None
    }
}

/// Reads the `polarity` attribute; the kernel spells the inverted polarity
/// in more than one way.
pub fn parse_polarity(raw: &str) -> (r: Option<PwmPolarity>)
    ensures
        r == spec_parse_polarity(raw@),
{
    let v = chars_of(raw);
    if seq_eq(&v, "normal") {
        Some(PwmPolarity::Normal)
    } else if seq_eq(&v, "inversed") || seq_eq(&v, "inverse") || seq_eq(&v, "inverted") {
        Some(PwmPolarity::Inversed)
    } else {
        None
    }
}

/// Reads a nanosecond attribute (`period`, `duty_cycle`).
pub fn parse_u64(raw: &str) -> (r: Option<u64>)
    ensures
        match r {
            Some(x) => parse_unsigned(raw@, 10, u64::MAX as nat) == Some(x as nat),
            None => parse_unsigned(raw@, 10, u64::MAX as nat) is None,
        },
{
    let v = chars_of(raw);
    assert(v@.subrange(0, v@.len() as int) =~= raw@);
    parse_unsigned_range(&v, 0, v.len(), 10, u64::MAX)
}

pub open spec fn spec_read_configuration(
    period: Seq<char>,
    duty_cycle: Seq<char>,
    enable: Seq<char>,
    polarity: Seq<char>,
) -> Result<PwmConfiguration, PwmAttribute> {
    match parse_unsigned(period, 10, u64::MAX as nat) {
        None => Err(PwmAttribute::Period),
        Some(p) => match parse_unsigned(duty_cycle, 10, u64::MAX as nat) {
            None => Err(PwmAttribute::DutyCycle),
            Some(d) => match spec_parse_enabled(enable) {
                None => Err(PwmAttribute::Enable),
                Some(e) => match spec_parse_polarity(polarity) {
                    None => Err(PwmAttribute::Polarity),
                    Some(pol) => Ok(
                        PwmConfiguration {
                            period_ns: p as u64,
                            duty_cycle_ns: d as u64,
                            enabled: e,
                            polarity: pol,
                        },
                    ),
                },
            },
        },
    }
}

/// The channel configuration held by the four attribute files, given their
/// trimmed contents; the first file that does not parse is named.
pub fn read_configuration(period: &str, duty_cycle: &str, enable: &str, polarity: &str) -> (r:
    Result<PwmConfiguration, PwmAttribute>)
    ensures
        r == spec_read_configuration(period@, duty_cycle@, enable@, polarity@),
{
    let p = match parse_u64(period) {
        None => return Err(PwmAttribute::Period),
        Some(p) => p,
    };
    let d = match parse_u64(duty_cycle) {
        None => return Err(PwmAttribute::DutyCycle),
        Some(d) => d,
    };
    let e = match parse_enabled(enable) {
        None => return Err(PwmAttribute::Enable),
        Some(e) => e,
    };
    let pol = match parse_polarity(polarity) {
        None => return Err(PwmAttribute::Polarity),
        Some(pol) => pol,
    };
    Ok(PwmConfiguration { period_ns: p, duty_cycle_ns: d, enabled: e, polarity: pol })
}

/// The text written to the attribute file for `w`.
pub fn write_value(w: PwmWrite) -> (r: String)
    ensures
        r@ == spec_write_value(w),
{
    match w {
        PwmWrite::Enable(e) => {
            proof {
                reveal_strlit("1");
                reveal_strlit("0");
            }
            if e {
                let s = String::from_str("1");
                assert(s@ =~= seq!['1']);
                s
            } else {
                let s = String::from_str("0");
                assert(s@ =~= seq!['0']);
                s
            }
        },
        PwmWrite::Period(p) => {
            let mut v: Vec<char> = Vec::new();
            crate::text::push_dec(&mut v, p);
            assert(v@ =~= dec_digits(p as nat));
            crate::text::string_from_chars(&v)
        },
        PwmWrite::DutyCycle(d) => {
            let mut v: Vec<char> = Vec::new();
            crate::text::push_dec(&mut v, d);
            assert(v@ =~= dec_digits(d as nat));
            crate::text::string_from_chars(&v)
        },
        PwmWrite::Polarity(p) => match p {
            PwmPolarity::Normal => String::from_str("normal"),
            PwmPolarity::Inversed => String::from_str("inversed"),
        },
    }
}

/// What is written to the attribute files reads back as the configuration
/// that was written.
pub proof fn law_written_configuration_reads_back(c: PwmConfiguration)
    ensures
        spec_read_configuration(
            spec_write_value(PwmWrite::Period(c.period_ns)),
            spec_write_value(PwmWrite::DutyCycle(c.duty_cycle_ns)),
            spec_write_value(PwmWrite::Enable(c.enabled)),
            spec_write_value(PwmWrite::Polarity(c.polarity)),
        ) == Ok::<PwmConfiguration, PwmAttribute>(c),
{
    lemma_parse_dec_digits(c.period_ns as nat, u64::MAX as nat);
    lemma_parse_dec_digits(c.duty_cycle_ns as nat, u64::MAX as nat);
    reveal_strlit("normal");
    reveal_strlit("inversed");
    reveal_strlit("inverse");
    reveal_strlit("inverted");
    assert(seq!['0'] != seq!['1']) by {
        assert(seq!['0'][0] != seq!['1'][0]);
    }
    assert("inversed"@ != "normal"@) by {
        assert("inversed"@.len() != "normal"@.len());
    }
}

/// The sysfs PWM attribute encodings are the kernel's: `enable` holds `1`
/// for an enabled channel and `0` for a disabled one, and reads back so;
/// `polarity` holds `normal` or `inversed`; `period` and `duty_cycle` hold
/// the nanoseconds in decimal, which read back as the same number.
pub proof fn law_sysfs_encodings_are_the_kernels(ns: u64)
    ensures
        spec_write_value(PwmWrite::Enable(true)) == "1"@,
        spec_write_value(PwmWrite::Enable(false)) == "0"@,
        spec_parse_enabled("1"@) == Some(true),
        spec_parse_enabled("0"@) == Some(false),
        spec_write_value(PwmWrite::Polarity(PwmPolarity::Normal)) == "normal"@,
        spec_write_value(PwmWrite::Polarity(PwmPolarity::Inversed)) == "inversed"@,
        spec_parse_polarity("normal"@) == Some(PwmPolarity::Normal),
        spec_parse_polarity("inversed"@) == Some(PwmPolarity::Inversed),
        parse_unsigned(spec_write_value(PwmWrite::Period(ns)), 10, u64::MAX as nat) == Some(ns as nat),
        parse_unsigned(spec_write_value(PwmWrite::DutyCycle(ns)), 10, u64::MAX as nat) == Some(ns as nat),
{
    reveal_strlit("1");
    reveal_strlit("0");
    reveal_strlit("normal");
    reveal_strlit("inversed");
    assert("1"@ =~= seq!['1']);
    assert("0"@ =~= seq!['0']);
    assert(seq!['1'] != seq!['0']) by {
        assert(seq!['1'][0] != seq!['0'][0]);
    }
    assert("inversed"@ != "normal"@) by {
        assert("inversed"@.len() != "normal"@.len());
    }
    lemma_parse_dec_digits(ns as nat, u64::MAX as nat);
}

} // verus!
