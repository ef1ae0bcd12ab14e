use heckcheck::CheckResult;
use heckcheck::HeckCheck;
use heckcheck::Target;
use heckcheck::TrialOutcome;

/// A color value encoded as Red-Green-Blue.
#[derive(Clone, Debug, PartialEq)]
pub struct Rgb {
    pub r: u8,
    pub g: u8,
    pub b: u8,
}

fn rgb_from(input: &[u8]) -> (Rgb, usize) {
    let r = if input.len() > 0 { input[0] } else { 0 };
    let g = if input.len() > 1 { input[1] } else { 0 };
    let b = if input.len() > 2 { input[2] } else { 0 };
    let consumed = if input.len() < 3 { input.len() } else { 3 };
    (Rgb { r, g, b }, consumed)
}

/// Round-trips an Rgb value through a correct hex encoding.
struct RgbRoundTrip;

impl Target for RgbRoundTrip {
    fn min_size(&self) -> usize {
        3
    }

    fn run(&mut self, input: &[u8]) -> TrialOutcome {
        let (rgb, consumed) = rgb_from(input);
        let hex = format!("#{:02X}{:02X}{:02X}", rgb.r, rgb.g, rgb.b);
        let s = hex.strip_prefix('#').unwrap();
        let res = Rgb {
            r: u8::from_str_radix(&s[0..2], 16).unwrap(),
            g: u8::from_str_radix(&s[2..4], 16).unwrap(),
            b: u8::from_str_radix(&s[4..6], 16).unwrap(),
        };
        if res == rgb {
            TrialOutcome::Success
        } else {
            TrialOutcome::Failure { consumed }
        }
    }
}

#[test]
fn smoke() {
    let r = heckcheck::check(&mut RgbRoundTrip);
    assert!(matches!(r, CheckResult::Passed { trials: 100 }));
}

/// Round-trips an Rgb value through a hex encoding whose green channel is
/// written without a fixed width but read back as a single character, so
/// the round trip breaks exactly when the green value needs two hex digits.
struct BuggyGreenWidth;

impl Target for BuggyGreenWidth {
    fn min_size(&self) -> usize {
        3
    }

    fn run(&mut self, input: &[u8]) -> TrialOutcome {
        let (rgb, consumed) = rgb_from(input);
        let hex = format!("#{:02X}{:X}{:02X}", rgb.r, rgb.g, rgb.b);
        let s = hex.strip_prefix('#').unwrap();
        let res = Rgb {
            r: u8::from_str_radix(&s[0..2], 16).unwrap(),
            g: u8::from_str_radix(&s[2..3], 16).unwrap(),
            b: u8::from_str_radix(&s[3..5], 16).unwrap(),
        };
        if res == rgb {
            TrialOutcome::Success
        } else {
            TrialOutcome::Failure { consumed }
        }
    }
}

#[test]
fn reports_failure_on_bug() {
    let mut checker = HeckCheck::new();
    let r = checker.check(&mut BuggyGreenWidth);
    let rep = match r {
        CheckResult::Failed(rep) => rep,
        _ => panic!("the buggy round trip must produce a failure report"),
    };
    // The report encodes the minimized bytes: replaying it reproduces the
    // failure, and the minimized instance has a green value that needs two
    // hex digits, since only those expose the width bug.
    let run = heckcheck::replay(&rep.encoded, &mut BuggyGreenWidth).unwrap();
    assert!(matches!(run.outcome, TrialOutcome::Failure { .. }));
    let (rgb, _) = rgb_from(&run.input);
    assert!(rgb.g >= 16);
    // The encoded text is exactly the base64 of the replayed bytes.
    assert_eq!(rep.encoded, base64::encode(&run.input));
}

/// Records every input it is handed and always succeeds.
#[derive(Default)]
struct Recorder {
    inputs: Vec<Vec<u8>>,
}

impl Target for Recorder {
    fn min_size(&self) -> usize {
        0
    }

    fn run(&mut self, input: &[u8]) -> TrialOutcome {
        self.inputs.push(input.to_vec());
        TrialOutcome::Success
    }
}

#[test]
fn determinism_fixed_seed() {
    let mut first = Recorder::default();
    let mut second = Recorder::default();
    let ra = HeckCheck::from_seed(42).check(&mut first);
    let rb = HeckCheck::from_seed(42).check(&mut second);
    assert!(matches!(ra, CheckResult::Passed { trials: 100 }));
    assert!(matches!(rb, CheckResult::Passed { trials: 100 }));
    assert_eq!(first.inputs, second.inputs);
    assert_eq!(first.inputs.len(), 100);
    assert_eq!(first.inputs[0].len(), 1024);
    // The buffer really was overwritten with random content.
    assert!(first.inputs[0].iter().any(|&x| x != 0));
    // Different seeds draw different buffers.
    let mut third = Recorder::default();
    let rc = HeckCheck::from_seed(43).check(&mut third);
    assert!(matches!(rc, CheckResult::Passed { trials: 100 }));
    assert_ne!(first.inputs[0], third.inputs[0]);
}

/// Asks for more data on its first trial, then succeeds.
#[derive(Default)]
struct HungryOnce {
    lens: Vec<usize>,
}

impl Target for HungryOnce {
    fn min_size(&self) -> usize {
        0
    }

    fn run(&mut self, input: &[u8]) -> TrialOutcome {
        self.lens.push(input.len());
        if self.lens.len() == 1 {
            TrialOutcome::InsufficientData
        } else {
            TrialOutcome::Success
        }
    }
}

#[test]
fn growth_at_least_doubles() {
    let mut target = HungryOnce::default();
    let r = HeckCheck::new().check(&mut target);
    assert!(matches!(r, CheckResult::Passed { trials: 100 }));
    assert_eq!(target.lens[0], 1024);
    assert!(target.lens[1] >= 2 * target.lens[0]);
    assert_eq!(target.lens[1], 2048);
    // No buffer is ever resized smaller.
    for w in target.lens.windows(2) {
        assert!(w[1] >= w[0]);
    }
}

/// Declares a structural minimum size above the initial allocation.
#[derive(Default)]
struct WideMinimum {
    lens: Vec<usize>,
}

impl Target for WideMinimum {
    fn min_size(&self) -> usize {
        5000
    }

    fn run(&mut self, input: &[u8]) -> TrialOutcome {
        self.lens.push(input.len());
        TrialOutcome::Success
    }
}

#[test]
fn grows_to_structural_minimum() {
    let mut target = WideMinimum::default();
    let r = HeckCheck::new().check(&mut target);
    assert!(matches!(r, CheckResult::Passed { trials: 100 }));
    assert_eq!(target.lens[0], 5000);
}

/// Counts its calls and always succeeds.
#[derive(Default)]
struct CountSuccess {
    calls: u64,
}

impl Target for CountSuccess {
    fn min_size(&self) -> usize {
        0
    }

    fn run(&mut self, _input: &[u8]) -> TrialOutcome {
        self.calls += 1;
        TrialOutcome::Success
    }
}

#[test]
fn always_success_runs_exactly_the_budget() {
    let mut target = CountSuccess::default();
    let r = heckcheck::check(&mut target);
    assert!(matches!(r, CheckResult::Passed { trials: 100 }));
    assert_eq!(target.calls, 100);
}

/// Fails immediately without consuming any bytes.
struct FailsOnNothing;

impl Target for FailsOnNothing {
    fn min_size(&self) -> usize {
        0
    }

    fn run(&mut self, _input: &[u8]) -> TrialOutcome {
        TrialOutcome::Failure { consumed: 0 }
    }
}

#[test]
fn empty_minimized_slice_gives_empty_encoding() {
    let r = HeckCheck::from_seed(7).check(&mut FailsOnNothing);
    match r {
        CheckResult::Failed(rep) => assert_eq!(rep.encoded, ""),
        _ => panic!("expected a failure report"),
    }
}

/// Breaks the generation contract outright.
struct BrokenCapability;

impl Target for BrokenCapability {
    fn min_size(&self) -> usize {
        0
    }

    fn run(&mut self, _input: &[u8]) -> TrialOutcome {
        TrialOutcome::Defect
    }
}

#[test]
fn capability_defect_is_fatal() {
    let r = HeckCheck::from_seed(7).check(&mut BrokenCapability);
    assert!(matches!(r, CheckResult::Defect));
}

#[test]
fn replay_decodes_and_runs_once() {
    let mut target = Recorder::default();
    // "ACo=" is the standard base64 of the bytes [0, 42].
    let run = heckcheck::replay("ACo=", &mut target).unwrap();
    assert_eq!(run.input, vec![0u8, 42u8]);
    assert!(matches!(run.outcome, TrialOutcome::Success));
    assert_eq!(target.inputs.len(), 1);
    assert_eq!(target.inputs[0], vec![0u8, 42u8]);
}

#[test]
fn replay_rejects_text_that_encodes_nothing() {
    let mut target = Recorder::default();
    let run = heckcheck::replay("not base64!!!", &mut target);
    assert!(run.is_none());
    assert_eq!(target.inputs.len(), 0);
}
