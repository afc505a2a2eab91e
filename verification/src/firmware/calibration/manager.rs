//! The calibration manager: owns the configuration, the safety monitor, the
//! one active phase estimator and the results gathered so far, and drives the
//! run one tick at a time.

use vstd::prelude::*;
use super::config::{CalibrationConfig, PHASE_FRICTION, PHASE_INERTIA};
use super::laws::lemma_tick_preserves_wf;
use super::phases::friction::{FrictionModel, FrictionTest};
use super::phases::inertia::{InertiaModel, InertiaTest};
use super::report::{
    assemble_confidence,
    assemble_parameters,
    confidence_of,
    parameters_of,
    CalibrationPhase,
    CalibrationResult,
    CalibrationStatus,
};
use super::safety::{MonitorModel, SafetyMonitor};
use super::types::{
    CalibrationState,
    ErrorCode,
    FrictionResult,
    InertiaResult,
    MeasurementSample,
    TestResults,
};
use crate::firmware::units::clamp_i64;

verus! {

/// Torque constant with which the estimators are seeded: 0.15 Nm/A.
pub const NOMINAL_TORQUE_CONSTANT: i32 = 150_000;

/// Nominal duration of the inertia phase, in seconds.
pub const INERTIA_NOMINAL_SECONDS: i64 = 15;

/// Nominal duration of the friction phase, in seconds.
pub const FRICTION_NOMINAL_SECONDS: i64 = 30;

/// The estimator of the phase in progress, if any.
pub enum ActivePhase {
    Inactive,
    Inertia(InertiaTest),
    Friction(FrictionTest),
}

/// The phase in progress, as mathematical values.
#[verifier::ext_equal]
pub enum PhaseModel {
    Inactive,
    Inertia(InertiaModel),
    Friction(FrictionModel),
}

impl View for ActivePhase {
    type V = PhaseModel;

    open spec fn view(&self) -> PhaseModel {
        match self {
            ActivePhase::Inactive => PhaseModel::Inactive,
            ActivePhase::Inertia(t) => PhaseModel::Inertia(t@),
            ActivePhase::Friction(t) => PhaseModel::Friction(t@),
        }
    }
}

/// What a manager holds, as mathematical values.
#[verifier::ext_equal]
pub struct ManagerModel {
    pub state: CalibrationState,
    pub config: CalibrationConfig,
    /// The safety monitor; present from `start` on.
    pub monitor: Option<MonitorModel>,
    pub active: PhaseModel,
    pub results: TestResults,
}

/// One tick of the manager: its next state, the commanded current (µA) and
/// velocity (µrad/s), and whether the run has ended.
pub struct ManagerTick {
    pub next: ManagerModel,
    pub current: int,
    pub velocity: int,
    pub complete: bool,
}

/// The state entered when leaving `from`: the first selected phase that comes
/// after it in the order inertia, friction; `Complete` if none remains. Only
/// phases that have an estimator can be entered; the other bits of the mask
/// select nothing.
pub open spec fn following(config: CalibrationConfig, from: CalibrationState) -> CalibrationState {
    if from is Initializing && config.selects(PHASE_INERTIA) {
        CalibrationState::InertiaTest
    } else if (from is Initializing || from is InertiaTest) && config.selects(PHASE_FRICTION) {
        CalibrationState::FrictionTest
    } else {
        CalibrationState::Complete
    }
}

impl ManagerModel {
    /// The model of a fresh manager.
    pub open spec fn initial() -> ManagerModel {
        ManagerModel {
            state: CalibrationState::Idle,
            config: CalibrationConfig {
                phases: 0,
                max_current: 0,
                max_velocity: 0,
                max_position_range: 0,
                phase_timeout: 0,
                return_home: false,
                home_position: 0,
            },
            monitor: None,
            active: PhaseModel::Inactive,
            results: TestResults {
                inertia: None,
                friction: None,
                torque_constant: None,
                damping: None,
            },
        }
    }

    /// What every manager maintains: the monitor exists from `start` on and
    /// enforces the validated configuration; a phase state has exactly its own
    /// estimator, unfinished; no other state has one; the friction estimator
    /// visits the fractions of the configured velocity; and a phase that was
    /// selected and lies behind has left its result.
    pub open spec fn wf(self) -> bool {
        &&& self.state is Idle <==> self.monitor is None
        &&& self.state is InertiaTest <==> self.active is Inertia
        &&& self.state is FrictionTest <==> self.active is Friction
        &&& self.active matches PhaseModel::Inertia(t) ==> t.wf() && !t.finished()
        &&& self.active matches PhaseModel::Friction(t) ==> t.wf() && !t.finished() && t.setpoints
            == FrictionModel::initial(t.kt, self.config.max_velocity as int).setpoints
        &&& self.monitor matches Some(m) ==> m.limits == self.config && self.config.is_valid()
            && m.home == self.config.home_position
        &&& !(self.state is TorqueConstantTest || self.state is DampingTest
            || self.state is Validation || self.state is Finalizing)
        &&& self.state is FrictionTest && self.config.selects(PHASE_INERTIA)
            ==> self.results.inertia is Some
        &&& self.state is Complete && self.config.selects(PHASE_INERTIA)
            ==> self.results.inertia is Some
        &&& self.state is Complete && self.config.selects(PHASE_FRICTION)
            ==> self.results.friction is Some
    }

    /// The manager after a successful `start`.
    pub open spec fn started(self, config: CalibrationConfig, position: i32, now: i64) -> ManagerModel {
        let homed = CalibrationConfig { home_position: position, ..config };
        ManagerModel {
            state: CalibrationState::Initializing,
            config: homed,
            monitor: Some(
                MonitorModel {
                    limits: homed,
                    home: position as int,
                    started_at: now as int,
                    phase_started_at: now as int,
                },
            ),
            ..self
        }
    }

    /// The manager after `stop`: a run in progress is aborted; an idle or
    /// ended manager stays as it is.
    pub open spec fn stopped(self) -> ManagerModel {
        if self.state is Idle || self.state.is_terminal() {
            self
        } else {
            self.failed(ErrorCode::UserAbort)
        }
    }

    /// The manager after a fatal `code`: the estimator is discarded.
    pub open spec fn failed(self, code: ErrorCode) -> ManagerModel {
        ManagerModel {
            state: CalibrationState::Failed(code),
            active: PhaseModel::Inactive,
            ..self
        }
    }

    /// The manager on entering `target`, one of `InertiaTest`, `FrictionTest`
    /// and `Complete`: a phase gets a fresh estimator and a fresh phase timer.
    pub open spec fn entering(self, target: CalibrationState, now: i64) -> ManagerModel {
        let restarted = match self.monitor {
            Some(m) => Some(MonitorModel { phase_started_at: now as int, ..m }),
            None => None,
        };
        match target {
            CalibrationState::InertiaTest => ManagerModel {
                state: target,
                active: PhaseModel::Inertia(InertiaModel::initial(NOMINAL_TORQUE_CONSTANT as int)),
                monitor: restarted,
                ..self
            },
            CalibrationState::FrictionTest => ManagerModel {
                state: target,
                active: PhaseModel::Friction(
                    FrictionModel::initial(
                        NOMINAL_TORQUE_CONSTANT as int,
                        self.config.max_velocity as int,
                    ),
                ),
                monitor: restarted,
                ..self
            },
            _ => ManagerModel {
                state: CalibrationState::Complete,
                active: PhaseModel::Inactive,
                ..self
            },
        }
    }

    /// The verdict of the safety gate on `sample`; without a monitor every
    /// sample passes.
    pub open spec fn gate(self, sample: MeasurementSample) -> Result<(), ErrorCode> {
        match self.monitor {
            Some(m) => m.verdict(sample),
            None => Ok(()),
        }
    }

    /// The transition function.
    ///
    /// An ended run stays as it is. Otherwise the safety gate comes first: a
    /// violation ends the run as `Failed` with its code, whatever the state.
    /// Otherwise the state decides: `Initializing` enters the first selected
    /// phase; a phase state hands the sample to its estimator and, when that
    /// finishes, stores its result and enters what follows.
    pub open spec fn tick(self, sample: MeasurementSample) -> ManagerTick {
        if self.state.is_terminal() {
            ManagerTick { next: self, current: 0, velocity: 0, complete: true }
        } else if self.gate(sample) is Err {
            ManagerTick {
                next: self.failed(self.gate(sample)->Err_0),
                current: 0,
                velocity: 0,
                complete: true,
            }
        } else {
            match (self.state, self.active) {
                (CalibrationState::Initializing, _) => {
                    let target = following(self.config, self.state);
                    ManagerTick {
                        next: self.entering(target, sample.timestamp),
                        current: 0,
                        velocity: 0,
                        complete: target is Complete,
                    }
                },
                (CalibrationState::InertiaTest, PhaseModel::Inertia(t)) => {
                    let step = t.tick(sample);
                    if step.done {
                        let target = following(self.config, self.state);
                        let stored = ManagerModel {
                            results: TestResults {
                                inertia: Some(step.next.result()),
                                ..self.results
                            },
                            ..self
                        };
                        ManagerTick {
                            next: stored.entering(target, sample.timestamp),
                            current: 0,
                            velocity: 0,
                            complete: target is Complete,
                        }
                    } else {
                        ManagerTick {
                            next: ManagerModel { active: PhaseModel::Inertia(step.next), ..self },
                            current: step.command,
                            velocity: 0,
                            complete: false,
                        }
                    }
                },
                (CalibrationState::FrictionTest, PhaseModel::Friction(t)) => {
                    let step = t.tick(sample);
                    if step.done {
                        let stored = ManagerModel {
                            results: TestResults {
                                friction: Some(step.next.result()),
                                ..self.results
                            },
                            ..self
                        };
                        ManagerTick {
                            next: stored.entering(CalibrationState::Complete, sample.timestamp),
                            current: 0,
                            velocity: 0,
                            complete: true,
                        }
                    } else {
                        ManagerTick {
                            next: ManagerModel { active: PhaseModel::Friction(step.next), ..self },
                            current: 0,
                            velocity: step.command,
                            complete: false,
                        }
                    }
                },
                _ => ManagerTick { next: self, current: 0, velocity: 0, complete: false },
            }
        }
    }

    /// The status snapshot.
    pub open spec fn status(self) -> CalibrationStatus {
        let (phase, progress, time_remaining) = match self.state {
            CalibrationState::InertiaTest => {
                let progress: int = match self.active {
                    PhaseModel::Inertia(t) => t.trial as int * 200_000,
                    _ => 0,
                };
                (
                    CalibrationPhase::InertiaTest,
                    progress,
                    INERTIA_NOMINAL_SECONDS * (1_000_000 - progress),
                )
            },
            CalibrationState::FrictionTest => {
                let progress: int = match self.active {
                    PhaseModel::Friction(t) => t.velocity_index as int * 125_000,
                    _ => 0,
                };
                (
                    CalibrationPhase::FrictionTest,
                    progress,
                    FRICTION_NOMINAL_SECONDS * (1_000_000 - progress),
                )
            },
            CalibrationState::Complete => (CalibrationPhase::Complete, 1_000_000int, 0int),
            CalibrationState::Failed(_) => (CalibrationPhase::Failed, 1_000_000int, 0int),
            _ => (CalibrationPhase::Idle, 0int, 0int),
        };
        CalibrationStatus {
            phase,
            progress: progress as i32,
            time_remaining: time_remaining as i64,
            current_position: 0,
            current_velocity: 0,
            current_iq: 0,
        }
    }

    /// The result snapshot at time `now`.
    pub open spec fn report(self, now: i64) -> CalibrationResult {
        CalibrationResult {
            success: self.state is Complete,
            parameters: parameters_of(self.results),
            confidence: confidence_of(self.results),
            total_time: match self.monitor {
                Some(m) => clamp_i64(now - m.started_at) as i64,
                None => 0i64,
            },
            error_code: match self.state {
                CalibrationState::Failed(code) => code.spec_code(),
                _ => 0u16,
            },
        }
    }
}

/// Orchestrates one calibration run. A new run needs a new manager.
pub struct CalibrationManager {
    state: CalibrationState,
    config: CalibrationConfig,
    safety: Option<SafetyMonitor>,
    active: ActivePhase,
    results: TestResults,
}

impl View for CalibrationManager {
    type V = ManagerModel;

    closed spec fn view(&self) -> ManagerModel {
        ManagerModel {
            state: self.state,
            config: self.config,
            monitor: match self.safety {
                Some(m) => Some(m@),
                None => None,
            },
            active: self.active@,
            results: self.results,
        }
    }
}

impl CalibrationManager {
    /// An idle manager.
    pub fn new() -> (m: Self)
        ensures
            m@ == ManagerModel::initial(),
            m@.wf(),
    {
        CalibrationManager {
            state: CalibrationState::Idle,
            config: CalibrationConfig {
                phases: 0,
                max_current: 0,
                max_velocity: 0,
                max_position_range: 0,
                phase_timeout: 0,
                return_home: false,
                home_position: 0,
            },
            safety: None,
            active: ActivePhase::Inactive,
            results: TestResults {
                inertia: None,
                friction: None,
                torque_constant: None,
                damping: None,
            },
        }
    }

    /// Starts a run from `current_position` at `current_time`.
    ///
    /// Succeeds exactly when the manager is idle and `config` is valid; the
    /// manager then waits in `Initializing`, with `current_position` as home.
    /// Otherwise the manager is left as it is.
    pub fn start(
        &mut self,
        config: CalibrationConfig,
        current_position: i32,
        current_time: i64,
    ) -> (r: Result<(), ErrorCode>)
        ensures
            r is Ok <==> old(self)@.state is Idle && config.is_valid(),
            r is Ok ==> final(self)@ == old(self)@.started(config, current_position, current_time)
                && final(self)@.state is Initializing,
            r is Err ==> r == Err::<(), ErrorCode>(ErrorCode::InvalidState) && final(self)@ == old(
                self,
            )@,
            old(self)@.wf() ==> final(self)@.wf(),
    {
        match self.state {
            CalibrationState::Idle => {},
            _ => {
                return Err(ErrorCode::InvalidState);
            },
        }
        match config.validate() {
            Ok(_) => {},
            Err(_) => {
                return Err(ErrorCode::InvalidState);
            },
        }
        let mut homed = config;
        homed.home_position = current_position;
        self.config = homed;
        self.safety = Some(SafetyMonitor::new(homed, current_position, current_time));
        self.state = CalibrationState::Initializing;
        assert(self@ =~= old(self)@.started(config, current_position, current_time));
        Ok(())
    }

    /// Aborts a run in progress with `UserAbort`. An idle manager and one
    /// whose run has ended are left as they are.
    pub fn stop(&mut self)
        ensures
            final(self)@ == old(self)@.stopped(),
            old(self)@.state is Idle || old(self)@.state.is_terminal() ==> final(self)@ == old(
                self,
            )@,
            old(self)@.wf() ==> final(self)@.wf(),
    {
        match self.state {
            CalibrationState::Idle | CalibrationState::Complete | CalibrationState::Failed(_) => {},
            _ => {
                self.state = CalibrationState::Failed(ErrorCode::UserAbort);
                self.active = ActivePhase::Inactive;
                assert(self@ =~= old(self)@.stopped());
            },
        }
    }

    /// The state entered when leaving the present one.
    fn next_state(&self) -> (target: CalibrationState)
        ensures
            target == following(self@.config, self@.state),
    {
        let from_start: bool = match self.state {
            CalibrationState::Initializing => true,
            _ => false,
        };
        let from_inertia: bool = match self.state {
            CalibrationState::InertiaTest => true,
            _ => false,
        };
        if from_start && self.config.phase_enabled(PHASE_INERTIA) {
            CalibrationState::InertiaTest
        } else if (from_start || from_inertia) && self.config.phase_enabled(PHASE_FRICTION) {
            CalibrationState::FrictionTest
        } else {
            CalibrationState::Complete
        }
    }

    /// Enters `target` at time `now`.
    fn enter(&mut self, target: CalibrationState, now: i64)
        ensures
            final(self)@ == old(self)@.entering(target, now),
    {
        match target {
            CalibrationState::InertiaTest => {
                self.active = ActivePhase::Inertia(InertiaTest::new(NOMINAL_TORQUE_CONSTANT));
                self.state = CalibrationState::InertiaTest;
                self.restart_phase_timer(now);
            },
            CalibrationState::FrictionTest => {
                self.active = ActivePhase::Friction(
                    FrictionTest::new(NOMINAL_TORQUE_CONSTANT, self.config.max_velocity),
                );
                self.state = CalibrationState::FrictionTest;
                self.restart_phase_timer(now);
            },
            _ => {
                self.active = ActivePhase::Inactive;
                self.state = CalibrationState::Complete;
            },
        }
        assert(self@ =~= old(self)@.entering(target, now));
    }

    /// Starts the phase timer of the monitor anew.
    fn restart_phase_timer(&mut self, now: i64)
        ensures
            final(self)@ == (ManagerModel {
                monitor: match old(self)@.monitor {
                    Some(m) => Some(MonitorModel { phase_started_at: now as int, ..m }),
                    None => None,
                },
                ..old(self)@
            }),
    {
        match &mut self.safety {
            Some(monitor) => {
                monitor.reset_phase_timer(now);
            },
            None => {},
        }
        assert(self@ =~= (ManagerModel {
            monitor: match old(self)@.monitor {
                Some(m) => Some(MonitorModel { phase_started_at: now as int, ..m }),
                None => None,
            },
            ..old(self)@
        }));
    }

    /// The verdict of the safety gate on `sample`.
    fn check_gate(&self, sample: &MeasurementSample) -> (r: Result<(), ErrorCode>)
        ensures
            r == self@.gate(*sample),
    {
        match &self.safety {
            Some(monitor) => monitor.check_safety(sample),
            None => Ok(()),
        }
    }

    /// Hands `sample` to the inertia estimator, if that is the one in
    /// progress; returns its command and, when it has finished, its result.
    fn drive_inertia(&mut self, sample: MeasurementSample) -> (r: Option<(i32, Option<InertiaResult>)>)
        ensures
            old(self)@.active matches PhaseModel::Inertia(t) ==> {
                let step = t.tick(sample);
                &&& final(self)@ == (ManagerModel {
                    active: PhaseModel::Inertia(step.next),
                    ..old(self)@
                })
                &&& r matches Some((command, result))
                &&& command == step.command
                &&& result == if step.done {
                    Some(step.next.result())
                } else {
                    None
                }
            },
            !(old(self)@.active is Inertia) ==> r is None && final(self)@ == old(self)@,
    {
        let r = match &mut self.active {
            ActivePhase::Inertia(test) => {
                let (command, done) = test.update(sample);
                let result = if done {
                    Some(test.get_result())
                } else {
                    None
                };
                Some((command, result))
            },
            _ => None,
        };
        proof {
            match old(self)@.active {
                PhaseModel::Inertia(t) => {
                    assert(self@ =~= (ManagerModel {
                        active: PhaseModel::Inertia(t.tick(sample).next),
                        ..old(self)@
                    }));
                },
                _ => {
                    assert(self@ =~= old(self)@);
                },
            }
        }
        r
    }

    /// Hands `sample` to the friction estimator, if that is the one in
    /// progress; returns its command and, when it has finished, its result.
    fn drive_friction(
        &mut self,
        sample: MeasurementSample,
    ) -> (r: Option<(i32, Option<FrictionResult>)>)
        ensures
            old(self)@.active matches PhaseModel::Friction(t) ==> {
                let step = t.tick(sample);
                &&& final(self)@ == (ManagerModel {
                    active: PhaseModel::Friction(step.next),
                    ..old(self)@
                })
                &&& r matches Some((command, result))
                &&& command == step.command
                &&& result == if step.done {
                    Some(step.next.result())
                } else {
                    None
                }
            },
            !(old(self)@.active is Friction) ==> r is None && final(self)@ == old(self)@,
    {
        let r = match &mut self.active {
            ActivePhase::Friction(test) => {
                let (command, done) = test.update(sample);
                let result = if done {
                    Some(test.get_result())
                } else {
                    None
                };
                Some((command, result))
            },
            _ => None,
        };
        proof {
            match old(self)@.active {
                PhaseModel::Friction(t) => {
                    assert(self@ =~= (ManagerModel {
                        active: PhaseModel::Friction(t.tick(sample).next),
                        ..old(self)@
                    }));
                },
                _ => {
                    assert(self@ =~= old(self)@);
                },
            }
        }
        r
    }

    /// Consumes the sample of one control tick; returns the commanded current
    /// (µA), the commanded velocity (µrad/s) and whether the run has ended.
    pub fn update(&mut self, sample: MeasurementSample) -> (r: (i32, i32, bool))
        ensures
            final(self)@ == old(self)@.tick(sample).next,
            r.0 == old(self)@.tick(sample).current,
            r.1 == old(self)@.tick(sample).velocity,
            r.2 == old(self)@.tick(sample).complete,
            old(self)@.state.is_terminal() ==> final(self)@ == old(self)@ && r == (0i32, 0i32, true),
            !old(self)@.state.is_terminal() ==> (old(self)@.gate(sample) matches Err(code)
                ==> final(self)@.state == CalibrationState::Failed(code) && r == (
                0i32,
                0i32,
                true,
            )),
            old(self)@.wf() ==> final(self)@.wf(),
    {
        proof {
            if old(self)@.wf() {
                lemma_tick_preserves_wf(old(self)@, sample);
            }
        }
        match self.state {
            CalibrationState::Complete | CalibrationState::Failed(_) => {
                return (0, 0, true);
            },
            _ => {},
        }
        match self.check_gate(&sample) {
            Err(code) => {
                self.state = CalibrationState::Failed(code);
                self.active = ActivePhase::Inactive;
                assert(self@ =~= old(self)@.failed(code));
                return (0, 0, true);
            },
            Ok(_) => {},
        }
        match self.state {
            CalibrationState::Initializing => {
                let target = self.next_state();
                self.enter(target, sample.timestamp);
                match target {
                    CalibrationState::Complete => (0, 0, true),
                    _ => (0, 0, false),
                }
            },
            CalibrationState::InertiaTest => {
                match self.drive_inertia(sample) {
                    Some((_, Some(result))) => {
                        self.results.inertia = Some(result);
                        let target = self.next_state();
                        self.enter(target, sample.timestamp);
                        assert(self@ =~= old(self)@.tick(sample).next);
                        match target {
                            CalibrationState::Complete => (0, 0, true),
                            _ => (0, 0, false),
                        }
                    },
                    Some((command, None)) => (command, 0, false),
                    None => (0, 0, false),
                }
            },
            CalibrationState::FrictionTest => {
                match self.drive_friction(sample) {
                    Some((_, Some(result))) => {
                        self.results.friction = Some(result);
                        self.enter(CalibrationState::Complete, sample.timestamp);
                        assert(self@ =~= old(self)@.tick(sample).next);
                        (0, 0, true)
                    },
                    Some((command, None)) => (0, command, false),
                    None => (0, 0, false),
                }
            },
            _ => (0, 0, false),
        }
    }

    /// The status of the run: its phase tag, the progress of the estimator in
    /// progress, and the time it is expected to need yet.
    pub fn get_status(&self, current_time: i64) -> (s: CalibrationStatus)
        ensures
            s == self@.status(),
    {
        let (phase, progress, time_remaining): (CalibrationPhase, i32, i64) = match self.state {
            CalibrationState::InertiaTest => {
                let progress: i32 = match &self.active {
                    ActivePhase::Inertia(test) => test.get_progress(),
                    _ => 0,
                };
                (
                    CalibrationPhase::InertiaTest,
                    progress,
                    INERTIA_NOMINAL_SECONDS * (1_000_000 - progress as i64),
                )
            },
            CalibrationState::FrictionTest => {
                let progress: i32 = match &self.active {
                    ActivePhase::Friction(test) => test.get_progress(),
                    _ => 0,
                };
                (
                    CalibrationPhase::FrictionTest,
                    progress,
                    FRICTION_NOMINAL_SECONDS * (1_000_000 - progress as i64),
                )
            },
            CalibrationState::Complete => (CalibrationPhase::Complete, 1_000_000, 0),
            CalibrationState::Failed(_) => (CalibrationPhase::Failed, 1_000_000, 0),
            _ => (CalibrationPhase::Idle, 0, 0),
        };
        CalibrationStatus {
            phase,
            progress,
            time_remaining,
            current_position: 0,
            current_velocity: 0,
            current_iq: 0,
        }
    }

    /// The result of the run as it stands at `current_time`: successful
    /// exactly when the run is `Complete`.
    pub fn get_result(&self, current_time: i64) -> (r: CalibrationResult)
        ensures
            r == self@.report(current_time),
            r.success <==> self@.state is Complete,
    {
        let success: bool = match self.state {
            CalibrationState::Complete => true,
            _ => false,
        };
        let error_code: u16 = match self.state {
            CalibrationState::Failed(code) => code.code(),
            _ => 0,
        };
        let total_time: i64 = match &self.safety {
            Some(monitor) => monitor.elapsed_time(current_time),
            None => 0,
        };
        CalibrationResult {
            success,
            parameters: assemble_parameters(&self.results),
            confidence: assemble_confidence(&self.results),
            total_time,
            error_code,
        }
    }

    /// Whether the run has ended, in success or in failure.
    pub fn is_complete(&self) -> (done: bool)
        ensures
            done == self@.state.is_terminal(),
    {
        match self.state {
            CalibrationState::Complete | CalibrationState::Failed(_) => true,
            _ => false,
        }
    }

    /// The state of the run.
    pub fn state(&self) -> (s: CalibrationState)
        ensures
            s == self@.state,
    {
        self.state
    }
}

impl Default for CalibrationManager {
    fn default() -> (m: Self)
        ensures
            m@ == ManagerModel::initial(),
    {
        CalibrationManager::new()
    }
}

} // verus!
