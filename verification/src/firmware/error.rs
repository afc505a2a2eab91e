//! Firmware-wide errors, their severity and what they demand.

use vstd::prelude::*;

verus! {

/// Everything that can go wrong in the firmware.
#[derive(Debug, Clone, Copy, PartialEq, Eq, Structural)]
pub enum FirmwareError {
    UartInitFailed,
    AdcInitFailed,
    PwmInitFailed,
    CanInitFailed,
    FlashInitFailed,
    EncoderInitFailed,
    MotorDriverInitFailed,
    WatchdogInitFailed,
    SensorReadError,
    MotorDriverFault,
    CalibrationFailed,
    CommunicationTimeout,
    StorageError,
    Overcurrent,
    Overvoltage,
    Undervoltage,
    Overtemperature,
    InvalidParameter,
    OutOfRange,
    InvalidConfiguration,
    ControlError,
    LimitExceeded,
    InvalidState,
}

/// How grave an error is, from `Info` up to `Critical`.
#[derive(Debug, Clone, Copy, PartialEq, Eq, PartialOrd, Ord, Structural)]
pub enum ErrorSeverity {
    /// Informational only.
    Info,
    /// Operation continues in degraded mode.
    Warning,
    /// Operation failed; the system can recover.
    Error,
    /// The system cannot continue safely.
    Critical,
}

impl ErrorSeverity {
    /// Position in the order `Info < Warning < Error < Critical`.
    pub open spec fn level(self) -> int {
        match self {
            ErrorSeverity::Info => 0,
            ErrorSeverity::Warning => 1,
            ErrorSeverity::Error => 2,
            ErrorSeverity::Critical => 3,
        }
    }

    /// Position in the order `Info < Warning < Error < Critical`.
    pub fn rank(self) -> (r: u8)
        ensures
            r == self.level(),
    {
        match self {
            ErrorSeverity::Info => 0,
            ErrorSeverity::Warning => 1,
            ErrorSeverity::Error => 2,
            ErrorSeverity::Critical => 3,
        }
    }
}

impl FirmwareError {
    /// The severity of each error.
    pub open spec fn severity_of(self) -> ErrorSeverity {
        match self {
            FirmwareError::AdcInitFailed
            | FirmwareError::PwmInitFailed
            | FirmwareError::EncoderInitFailed
            | FirmwareError::MotorDriverInitFailed
            | FirmwareError::MotorDriverFault
            | FirmwareError::Overvoltage
            | FirmwareError::Undervoltage
            | FirmwareError::InvalidConfiguration => ErrorSeverity::Critical,
            FirmwareError::Overcurrent
            | FirmwareError::Overtemperature
            | FirmwareError::ControlError
            | FirmwareError::LimitExceeded
            | FirmwareError::InvalidState
            | FirmwareError::SensorReadError
            | FirmwareError::CalibrationFailed
            | FirmwareError::StorageError => ErrorSeverity::Error,
            FirmwareError::UartInitFailed
            | FirmwareError::CanInitFailed
            | FirmwareError::CommunicationTimeout
            | FirmwareError::FlashInitFailed
            | FirmwareError::WatchdogInitFailed => ErrorSeverity::Warning,
            FirmwareError::InvalidParameter | FirmwareError::OutOfRange => ErrorSeverity::Info,
        }
    }

    /// The errors on which the motor must be stopped at once.
    pub open spec fn stops_motor(self) -> bool {
        self is MotorDriverFault || self is Overcurrent || self is Overvoltage
            || self is Undervoltage || self is Overtemperature || self is LimitExceeded
    }

    /// The text that describes each error.
    pub open spec fn description_of(self) -> Seq<char> {
        match self {
            FirmwareError::UartInitFailed => "UART initialization failed"@,
            FirmwareError::AdcInitFailed => "ADC initialization failed"@,
            FirmwareError::PwmInitFailed => "PWM initialization failed"@,
            FirmwareError::CanInitFailed => "CAN initialization failed"@,
            FirmwareError::FlashInitFailed => "Flash storage initialization failed"@,
            FirmwareError::EncoderInitFailed => "Encoder initialization failed"@,
            FirmwareError::MotorDriverInitFailed => "Motor driver initialization failed"@,
            FirmwareError::WatchdogInitFailed => "Watchdog initialization failed"@,
            FirmwareError::SensorReadError => "Sensor read error"@,
            FirmwareError::MotorDriverFault => "Motor driver fault"@,
            FirmwareError::CalibrationFailed => "Calibration failed"@,
            FirmwareError::CommunicationTimeout => "Communication timeout"@,
            FirmwareError::StorageError => "Storage operation failed"@,
            FirmwareError::Overcurrent => "Overcurrent condition"@,
            FirmwareError::Overvoltage => "Overvoltage condition"@,
            FirmwareError::Undervoltage => "Undervoltage condition"@,
            FirmwareError::Overtemperature => "Overtemperature condition"@,
            FirmwareError::InvalidParameter => "Invalid parameter"@,
            FirmwareError::OutOfRange => "Value out of range"@,
            FirmwareError::InvalidConfiguration => "Invalid configuration"@,
            FirmwareError::ControlError => "Control loop error"@,
            FirmwareError::LimitExceeded => "Limit exceeded"@,
            FirmwareError::InvalidState => "Invalid state"@,
        }
    }

    /// Whether the system can go on after the error: it can after every error
    /// but the critical ones.
    pub fn is_recoverable(&self) -> (r: bool)
        ensures
            r == !(self.severity_of() is Critical),
    {
        match self {
            FirmwareError::UartInitFailed => true,
            FirmwareError::CanInitFailed => true,
            FirmwareError::CommunicationTimeout => true,
            FirmwareError::StorageError => true,
            FirmwareError::AdcInitFailed => false,
            FirmwareError::PwmInitFailed => false,
            FirmwareError::EncoderInitFailed => false,
            FirmwareError::MotorDriverInitFailed => false,
            FirmwareError::MotorDriverFault => false,
            FirmwareError::Overcurrent => true,
            FirmwareError::Overtemperature => true,
            FirmwareError::Overvoltage => false,
            FirmwareError::Undervoltage => false,
            FirmwareError::ControlError => true,
            FirmwareError::LimitExceeded => true,
            FirmwareError::InvalidState => true,
            FirmwareError::InvalidParameter => true,
            FirmwareError::OutOfRange => true,
            FirmwareError::InvalidConfiguration => false,
            FirmwareError::SensorReadError => true,
            FirmwareError::CalibrationFailed => true,
            FirmwareError::FlashInitFailed => true,
            FirmwareError::WatchdogInitFailed => true,
        }
    }

    /// The severity of the error.
    pub fn severity(&self) -> (s: ErrorSeverity)
        ensures
            s == self.severity_of(),
    {
        match self {
            FirmwareError::AdcInitFailed => ErrorSeverity::Critical,
            FirmwareError::PwmInitFailed => ErrorSeverity::Critical,
            FirmwareError::EncoderInitFailed => ErrorSeverity::Critical,
            FirmwareError::MotorDriverInitFailed => ErrorSeverity::Critical,
            FirmwareError::MotorDriverFault => ErrorSeverity::Critical,
            FirmwareError::Overvoltage => ErrorSeverity::Critical,
            FirmwareError::Undervoltage => ErrorSeverity::Critical,
            FirmwareError::InvalidConfiguration => ErrorSeverity::Critical,
            FirmwareError::Overcurrent => ErrorSeverity::Error,
            FirmwareError::Overtemperature => ErrorSeverity::Error,
            FirmwareError::ControlError => ErrorSeverity::Error,
            FirmwareError::LimitExceeded => ErrorSeverity::Error,
            FirmwareError::InvalidState => ErrorSeverity::Error,
            FirmwareError::SensorReadError => ErrorSeverity::Error,
            FirmwareError::CalibrationFailed => ErrorSeverity::Error,
            FirmwareError::StorageError => ErrorSeverity::Error,
            FirmwareError::UartInitFailed => ErrorSeverity::Warning,
            FirmwareError::CanInitFailed => ErrorSeverity::Warning,
            FirmwareError::CommunicationTimeout => ErrorSeverity::Warning,
            FirmwareError::FlashInitFailed => ErrorSeverity::Warning,
            FirmwareError::WatchdogInitFailed => ErrorSeverity::Warning,
            FirmwareError::InvalidParameter => ErrorSeverity::Info,
            FirmwareError::OutOfRange => ErrorSeverity::Info,
        }
    }

    /// Whether the motor must be stopped at once. Every such error is at
    /// least of severity `Error`.
    pub fn requires_motor_stop(&self) -> (stop: bool)
        ensures
            stop == self.stops_motor(),
            stop ==> self.severity_of().level() >= ErrorSeverity::Error.level(),
    {
        match self {
            FirmwareError::MotorDriverFault => true,
            FirmwareError::Overcurrent => true,
            FirmwareError::Overvoltage => true,
            FirmwareError::Undervoltage => true,
            FirmwareError::Overtemperature => true,
            FirmwareError::LimitExceeded => true,
            _ => false,
        }
    }

    /// A description of the error for people to read.
    pub fn description(&self) -> (text: &'static str)
        ensures
            text@ == self.description_of(),
    {
        match self {
            FirmwareError::UartInitFailed => "UART initialization failed",
            FirmwareError::AdcInitFailed => "ADC initialization failed",
            FirmwareError::PwmInitFailed => "PWM initialization failed",
            FirmwareError::CanInitFailed => "CAN initialization failed",
            FirmwareError::FlashInitFailed => "Flash storage initialization failed",
            FirmwareError::EncoderInitFailed => "Encoder initialization failed",
            FirmwareError::MotorDriverInitFailed => "Motor driver initialization failed",
            FirmwareError::WatchdogInitFailed => "Watchdog initialization failed",
            FirmwareError::SensorReadError => "Sensor read error",
            FirmwareError::MotorDriverFault => "Motor driver fault",
            FirmwareError::CalibrationFailed => "Calibration failed",
            FirmwareError::CommunicationTimeout => "Communication timeout",
            FirmwareError::StorageError => "Storage operation failed",
            FirmwareError::Overcurrent => "Overcurrent condition",
            FirmwareError::Overvoltage => "Overvoltage condition",
            FirmwareError::Undervoltage => "Undervoltage condition",
            FirmwareError::Overtemperature => "Overtemperature condition",
            FirmwareError::InvalidParameter => "Invalid parameter",
            FirmwareError::OutOfRange => "Value out of range",
            FirmwareError::InvalidConfiguration => "Invalid configuration",
            FirmwareError::ControlError => "Control loop error",
            FirmwareError::LimitExceeded => "Limit exceeded",
            FirmwareError::InvalidState => "Invalid state",
        }
    }
}

/// The errors that a collection holds, in the order in which they were added.
pub uninterp spec fn collected(errors: heapless::Vec<FirmwareError, 16>) -> Seq<FirmwareError>;

/// `heapless::Vec::new`: the vector that holds nothing.
#[verifier::external_body]
fn collection_new() -> (errors: heapless::Vec<FirmwareError, 16>)
    ensures
        collected(errors) == Seq::<FirmwareError>::empty(),
{
    heapless::Vec::new()
}

/// `heapless::Vec::push`: appends `error` if the vector holds fewer items
/// than its capacity; otherwise hands `error` back and changes nothing.
#[verifier::external_body]
fn collection_push(
    errors: &mut heapless::Vec<FirmwareError, 16>,
    error: FirmwareError,
) -> (r: Result<(), FirmwareError>)
    ensures
        collected(*old(errors)).len() < 16 ==> r is Ok && collected(*final(errors)) == collected(
            *old(errors),
        ).push(error),
        collected(*old(errors)).len() >= 16 ==> r is Err && r->Err_0 == error && collected(
            *final(errors),
        ) == collected(*old(errors)),
{
    errors.push(error)
}

/// `len` of the slice that a `heapless::Vec` hands out: the number of items
/// it holds, which never exceeds its capacity.
#[verifier::external_body]
fn collection_len(errors: &heapless::Vec<FirmwareError, 16>) -> (n: usize)
    ensures
        n == collected(*errors).len(),
        n <= 16,
{
    errors.len()
}

/// Indexing of the slice that a `heapless::Vec` hands out: item `i`.
#[verifier::external_body]
fn collection_at(errors: &heapless::Vec<FirmwareError, 16>, i: usize) -> (error: FirmwareError)
    requires
        i < collected(*errors).len(),
    ensures
        error == collected(*errors)[i as int],
{
    errors[i]
}

/// The graver of two severities.
pub open spec fn graver(a: ErrorSeverity, b: ErrorSeverity) -> ErrorSeverity {
    if a.level() >= b.level() {
        a
    } else {
        b
    }
}

/// The gravest severity among `errors`; `Info` if there are none.
pub open spec fn gravest(errors: Seq<FirmwareError>) -> ErrorSeverity
    decreases errors.len(),
{
    if errors.len() == 0 {
        ErrorSeverity::Info
    } else {
        graver(gravest(errors.drop_last()), errors.last().severity_of())
    }
}

/// Whether one of `errors` is critical.
pub open spec fn any_critical(errors: Seq<FirmwareError>) -> bool {
    exists|i: int| 0 <= i < errors.len() && (#[trigger] errors[i]).severity_of() is Critical
}

/// One of the errors is critical exactly when the gravest severity is
/// `Critical`.
pub proof fn lemma_critical_is_gravest(errors: Seq<FirmwareError>)
    ensures
        any_critical(errors) <==> gravest(errors) is Critical,
    decreases errors.len(),
{
    if errors.len() > 0 {
        let rest = errors.drop_last();
        lemma_critical_is_gravest(rest);
        if any_critical(rest) {
            let i = choose|i: int|
                0 <= i < rest.len() && (#[trigger] rest[i]).severity_of() is Critical;
            assert(errors[i].severity_of() is Critical);
        }
        if errors.last().severity_of() is Critical {
            assert(errors[errors.len() - 1].severity_of() is Critical);
        }
        if any_critical(errors) {
            let i = choose|i: int|
                0 <= i < errors.len() && (#[trigger] errors[i]).severity_of() is Critical;
            if i < rest.len() {
                assert(rest[i].severity_of() is Critical);
            }
        }
    }
}

/// How the system goes on after initialization.
#[derive(Debug, Clone, Copy, PartialEq, Eq, Structural)]
pub enum Readiness {
    /// Nothing failed.
    Ready,
    /// Something failed that the system can do without.
    Degraded,
    /// Something critical failed: the motor stays off.
    SafeMode,
}

/// How the system goes on after `errors`: in safe mode if one of them is
/// critical, degraded if there are others, ready if there are none.
pub open spec fn readiness_after(errors: Seq<FirmwareError>) -> Readiness {
    if errors.len() == 0 {
        Readiness::Ready
    } else if any_critical(errors) {
        Readiness::SafeMode
    } else {
        Readiness::Degraded
    }
}

/// The errors met during initialization, at most 16 of them, in the order in
/// which they were added.
pub struct ErrorCollection {
    errors: heapless::Vec<FirmwareError, 16>,
}

impl View for ErrorCollection {
    type V = Seq<FirmwareError>;

    closed spec fn view(&self) -> Seq<FirmwareError> {
        collected(self.errors)
    }
}

impl ErrorCollection {
    /// Most errors that a collection holds.
    pub const CAPACITY: usize = 16;

    /// An empty collection.
    pub fn new() -> (c: Self)
        ensures
            c@ == Seq::<FirmwareError>::empty(),
    {
        ErrorCollection { errors: collection_new() }
    }

    /// Adds `error`, unless the collection is full: the seventeenth error and
    /// those after it are dropped.
    pub fn add(&mut self, error: FirmwareError)
        ensures
            old(self)@.len() < 16 ==> final(self)@ == old(self)@.push(error),
            old(self)@.len() >= 16 ==> final(self)@ == old(self)@,
    {
        let _ = collection_push(&mut self.errors, error);
    }

    /// Whether no error has been added.
    pub fn is_empty(&self) -> (e: bool)
        ensures
            e == (self@.len() == 0),
    {
        collection_len(&self.errors) == 0
    }

    /// Number of errors held.
    pub fn len(&self) -> (n: usize)
        ensures
            n == self@.len(),
            n <= 16,
    {
        collection_len(&self.errors)
    }

    /// The error added as number `index`, counted from 0.
    pub fn get(&self, index: usize) -> (e: Option<FirmwareError>)
        ensures
            e == if index < self@.len() {
                Some(self@[index as int])
            } else {
                None
            },
    {
        if index < collection_len(&self.errors) {
            Some(collection_at(&self.errors, index))
        } else {
            None
        }
    }

    /// Whether one of the errors is critical.
    pub fn has_critical_error(&self) -> (found: bool)
        ensures
            found == any_critical(self@),
    {
        let n: usize = collection_len(&self.errors);
        let mut i: usize = 0;
        while i < n
            invariant
                0 <= i <= n,
                n == self@.len(),
                forall|k: int| 0 <= k < i ==> !((#[trigger] self@[k]).severity_of() is Critical),
            decreases n - i,
        {
            match collection_at(&self.errors, i).severity() {
                ErrorSeverity::Critical => {
                    return true;
                },
                _ => {},
            }
            i = i + 1;
        }
        false
    }

    /// How the system goes on after these errors.
    pub fn readiness(&self) -> (r: Readiness)
        ensures
            r == readiness_after(self@),
            r is SafeMode <==> gravest(self@) is Critical,
    {
        proof {
            lemma_critical_is_gravest(self@);
        }
        if self.is_empty() {
            Readiness::Ready
        } else if self.has_critical_error() {
            Readiness::SafeMode
        } else {
            Readiness::Degraded
        }
    }

    /// The gravest severity among the errors; `Info` if there are none.
    pub fn max_severity(&self) -> (s: ErrorSeverity)
        ensures
            s == gravest(self@),
    {
        let n: usize = collection_len(&self.errors);
        let mut worst = ErrorSeverity::Info;
        let mut i: usize = 0;
        while i < n
            invariant
                0 <= i <= n,
                n == self@.len(),
                worst == gravest(self@.subrange(0, i as int)),
            decreases n - i,
        {
            proof {
                assert(self@.subrange(0, i + 1).drop_last() =~= self@.subrange(0, i as int));
            }
            let severity = collection_at(&self.errors, i).severity();
            if severity.rank() > worst.rank() {
                worst = severity;
            }
            i = i + 1;
        }
        proof {
            assert(self@.subrange(0, n as int) =~= self@);
        }
        worst
    }
}

} // verus!
