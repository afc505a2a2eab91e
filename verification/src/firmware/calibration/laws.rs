//! What holds of every calibration run, proved over the models of the
//! estimators and of the manager.

use vstd::prelude::*;
use super::config::{lemma_empty_mask_selects_nothing, CalibrationConfig, PHASE_FRICTION, PHASE_INERTIA};
use super::manager::{ManagerModel, PhaseModel, NOMINAL_TORQUE_CONSTANT};
use super::phases::friction::{
    lemma_steady_torque_bound,
    setpoint_at,
    tenths_at,
    FrictionModel,
    NUM_VELOCITIES,
};
use super::phases::inertia::{lemma_trial_inertia_bound, InertiaModel};
use super::safety::MonitorModel;
use super::types::{CalibrationState, ErrorCode, MeasurementSample};
use crate::firmware::units::quot;

verus! {

/// A tick of the inertia estimator keeps it well formed, never takes a trial
/// back, and reports completion exactly when the fifth trial has run.
pub proof fn lemma_inertia_tick(m: InertiaModel, sample: MeasurementSample)
    requires
        m.wf(),
    ensures
        m.tick(sample).next.wf(),
        m.trial <= m.tick(sample).next.trial <= m.trial + 1,
        m.tick(sample).done <==> m.tick(sample).next.finished(),
        m.tick(sample).next.kt == m.kt,
{
    if !m.finished() && m.phase is WaitSettle {
        lemma_trial_inertia_bound(m.kt, m.trial as int + 1, m.captured);
    }
}

/// A fresh inertia estimator is well formed and has all its trials before it.
pub proof fn lemma_inertia_initial(kt: int)
    requires
        i32::MIN <= kt <= i32::MAX,
    ensures
        InertiaModel::initial(kt).wf(),
        !InertiaModel::initial(kt).finished(),
{
}

/// In every trial the commanded current is one ampere more than in the trial
/// before: 1 A, 2 A, ... 5 A, and zero while the motor settles.
pub proof fn lemma_inertia_command(m: InertiaModel, sample: MeasurementSample)
    requires
        m.wf(),
        !m.finished(),
    ensures
        !(m.phase is WaitSettle) ==> m.tick(sample).command == (m.trial + 1) * 1_000_000,
        m.phase is WaitSettle ==> m.tick(sample).command == 0,
{
}

/// A tick of the friction estimator keeps it well formed and keeps its
/// velocities; it stays at its velocity point or moves to the next one, never
/// back and never past one; and it reports completion exactly when the eighth
/// point has been measured.
pub proof fn lemma_friction_tick(m: FrictionModel, sample: MeasurementSample)
    requires
        m.wf(),
    ensures
        m.tick(sample).next.wf(),
        m.tick(sample).next.setpoints == m.setpoints,
        m.velocity_index <= m.tick(sample).next.velocity_index <= m.velocity_index + 1,
        m.tick(sample).done <==> m.tick(sample).next.finished(),
        m.tick(sample).next.kt == m.kt,
{
    if !m.finished() && m.phase is Steady {
        let captured = if m.captured.len() < 300 {
            m.captured.push(sample)
        } else {
            m.captured
        };
        lemma_steady_torque_bound(m.kt, captured);
    }
}

/// Until it has finished, the friction estimator commands the velocity of
/// the point it is at.
pub proof fn lemma_friction_command(m: FrictionModel, sample: MeasurementSample)
    requires
        m.wf(),
        !m.finished(),
    ensures
        !m.tick(sample).done ==> m.tick(sample).command == m.setpoints[m.velocity_index as int],
        m.tick(sample).done ==> m.tick(sample).command == 0 && m.velocity_index
            == NUM_VELOCITIES - 1,
{
}

/// A fresh friction estimator is well formed and stands at its first point.
pub proof fn lemma_friction_initial(kt: int, max_velocity: int)
    requires
        i32::MIN <= kt <= i32::MAX,
    ensures
        FrictionModel::initial(kt, max_velocity).wf(),
        FrictionModel::initial(kt, max_velocity).velocity_index == 0,
{
}

/// The friction estimator after it has consumed `samples` in turn.
pub open spec fn friction_run(m: FrictionModel, samples: Seq<MeasurementSample>) -> FrictionModel
    decreases samples.len(),
{
    if samples.len() == 0 {
        m
    } else {
        friction_run(m, samples.drop_last()).tick(samples.last()).next
    }
}

/// Point `point` was visited while `samples` were consumed from `m` on: at
/// some tick the estimator stood at that point and commanded its velocity.
pub open spec fn visited(m: FrictionModel, samples: Seq<MeasurementSample>, point: int) -> bool
    recommends
        0 <= point < m.setpoints.len(),
{
    exists|k: int|
        0 <= k < samples.len() && #[trigger] friction_run(m, samples.take(k)).velocity_index
            == point && friction_run(m, samples.take(k)).tick(samples[k]).command
            == m.setpoints[point]
}

/// A run keeps the estimator well formed and its velocities as they were.
pub proof fn lemma_friction_run_wf(m: FrictionModel, samples: Seq<MeasurementSample>)
    requires
        m.wf(),
    ensures
        friction_run(m, samples).wf(),
        friction_run(m, samples).setpoints == m.setpoints,
        friction_run(m, samples).velocity_index >= m.velocity_index,
    decreases samples.len(),
{
    if samples.len() > 0 {
        lemma_friction_run_wf(m, samples.drop_last());
        lemma_friction_tick(friction_run(m, samples.drop_last()), samples.last());
    }
}

/// What a run from a fresh estimator has visited: every point before the one
/// it stands at, and that one too once it is being measured.
proof fn lemma_visited_so_far(m: FrictionModel, samples: Seq<MeasurementSample>)
    requires
        m.wf(),
        m.velocity_index == 0,
        m.phase is Ramping,
    ensures
        forall|p: int|
            0 <= p < friction_run(m, samples).velocity_index ==> visited(m, samples, p),
        friction_run(m, samples).phase is Steady && !friction_run(m, samples).finished()
            ==> visited(m, samples, friction_run(m, samples).velocity_index as int),
    decreases samples.len(),
{
    if samples.len() > 0 {
        let before = samples.drop_last();
        let last = samples.last();
        let k = before.len() as int;
        let at = friction_run(m, before);
        let after = friction_run(m, samples);
        lemma_visited_so_far(m, before);
        lemma_friction_run_wf(m, before);
        lemma_friction_tick(at, last);
        if !at.finished() {
            lemma_friction_command(at, last);
        }
        assert(samples.take(k) =~= before);
        assert forall|p: int| visited(m, before, p) implies visited(m, samples, p) by {
            let j = choose|j: int|
                0 <= j < before.len() && #[trigger] friction_run(m, before.take(j)).velocity_index
                    == p && friction_run(m, before.take(j)).tick(before[j]).command
                    == m.setpoints[p];
            assert(samples.take(j) =~= before.take(j));
            assert(friction_run(m, samples.take(j)).velocity_index == p);
        }
        if !at.finished() {
            if at.phase is Ramping {
                // This very tick commands the velocity of the point at hand.
                assert(friction_run(m, samples.take(k)).velocity_index == at.velocity_index);
                assert(visited(m, samples, at.velocity_index as int));
            }
        }
        assert forall|p: int| 0 <= p < after.velocity_index implies visited(m, samples, p) by {
            if p < at.velocity_index {
                assert(visited(m, before, p));
            } else {
                assert(p == at.velocity_index);
                assert(at.phase is Steady);
                assert(visited(m, before, p));
            }
        }
    }
}

/// Every velocity point is visited, in the declared order, before the
/// friction phase completes: a run from a fresh estimator that has finished
/// has stood at each of the eight points and commanded its velocity there; and
/// by `lemma_friction_tick` it went from each point to the next only.
pub proof fn lemma_all_points_visited(
    kt: int,
    max_velocity: int,
    samples: Seq<MeasurementSample>,
)
    requires
        i32::MIN <= kt <= i32::MAX,
        friction_run(FrictionModel::initial(kt, max_velocity), samples).finished(),
    ensures
        forall|p: int|
            0 <= p < NUM_VELOCITIES ==> visited(
                FrictionModel::initial(kt, max_velocity),
                samples,
                p,
            ),
{
    let m = FrictionModel::initial(kt, max_velocity);
    lemma_friction_initial(kt, max_velocity);
    lemma_friction_run_wf(m, samples);
    lemma_visited_so_far(m, samples);
}

/// Position of a state in the order in which a run passes through them.
pub open spec fn rank(state: CalibrationState) -> int {
    match state {
        CalibrationState::Idle => 0,
        CalibrationState::Initializing => 1,
        CalibrationState::InertiaTest => 2,
        CalibrationState::FrictionTest => 3,
        CalibrationState::TorqueConstantTest => 4,
        CalibrationState::DampingTest => 5,
        CalibrationState::Validation => 6,
        CalibrationState::Finalizing => 7,
        CalibrationState::Complete => 8,
        CalibrationState::Failed(_) => 8,
    }
}

/// A tick keeps the manager well formed.
pub proof fn lemma_tick_preserves_wf(m: ManagerModel, sample: MeasurementSample)
    requires
        m.wf(),
    ensures
        m.tick(sample).next.wf(),
{
    lemma_inertia_initial(NOMINAL_TORQUE_CONSTANT as int);
    lemma_friction_initial(NOMINAL_TORQUE_CONSTANT as int, m.config.max_velocity as int);
    match m.active {
        PhaseModel::Inertia(t) => {
            lemma_inertia_tick(t, sample);
        },
        PhaseModel::Friction(t) => {
            lemma_friction_tick(t, sample);
        },
        PhaseModel::Inactive => {},
    }
}

/// A run only moves forward: no tick takes the state back.
pub proof fn lemma_tick_moves_forward(m: ManagerModel, sample: MeasurementSample)
    requires
        m.wf(),
    ensures
        rank(m.tick(sample).next.state) >= rank(m.state),
{
}

/// `Complete` and `Failed` are terminal: a tick leaves an ended run as it is
/// and answers with a zero command and the completion flag; `stop` leaves it
/// as it is too.
pub proof fn lemma_terminal_is_permanent(m: ManagerModel, sample: MeasurementSample)
    requires
        m.state.is_terminal(),
    ensures
        m.tick(sample).next == m,
        m.tick(sample).current == 0,
        m.tick(sample).velocity == 0,
        m.tick(sample).complete,
        m.stopped() == m,
{
}

/// The completion flag of a tick is raised exactly when the run has ended.
pub proof fn lemma_complete_means_ended(m: ManagerModel, sample: MeasurementSample)
    requires
        m.wf(),
    ensures
        m.tick(sample).complete <==> m.tick(sample).next.state.is_terminal(),
{
    match m.active {
        PhaseModel::Inertia(t) => {
            lemma_inertia_tick(t, sample);
        },
        PhaseModel::Friction(t) => {
            lemma_friction_tick(t, sample);
        },
        PhaseModel::Inactive => {},
    }
}

/// A sample that violates a limit ends a run in progress at once, whatever
/// its state, with the code of the first limit violated and a zero command.
pub proof fn lemma_violation_fails(m: ManagerModel, sample: MeasurementSample, code: ErrorCode)
    requires
        !m.state.is_terminal(),
        m.gate(sample) == Err::<(), ErrorCode>(code),
    ensures
        m.tick(sample).next.state == CalibrationState::Failed(code),
        m.tick(sample).next.active is Inactive,
        m.tick(sample).current == 0,
        m.tick(sample).velocity == 0,
        m.tick(sample).complete,
{
}

/// A sample that violates both the position and the velocity limit is
/// reported under the position limit, which is checked first.
pub proof fn lemma_position_checked_first(monitor: MonitorModel, sample: MeasurementSample)
    requires
        monitor.position_violated(sample),
    ensures
        monitor.verdict(sample) == Err::<(), ErrorCode>(ErrorCode::PositionLimit),
{
}

/// With no phase selected, the first tick of a started run that passes the
/// safety gate completes it.
pub proof fn lemma_empty_selection_completes(m: ManagerModel, sample: MeasurementSample)
    requires
        m.state is Initializing,
        m.config.phases == 0,
        m.gate(sample) is Ok,
    ensures
        m.tick(sample).next.state is Complete,
        m.tick(sample).complete,
        m.tick(sample).current == 0,
        m.tick(sample).velocity == 0,
{
    lemma_empty_mask_selects_nothing(m.config, PHASE_INERTIA);
    lemma_empty_mask_selects_nothing(m.config, PHASE_FRICTION);
}

/// A phase that outlasts its timeout fails the run on the first tick whose
/// sample lies past the bound: a run in progress whose sample is within the
/// other four limits but later than `phase_timeout` after the start of the
/// phase ends as `Failed(Timeout)`.
pub proof fn lemma_timeout_fails(m: ManagerModel, monitor: MonitorModel, sample: MeasurementSample)
    requires
        !m.state.is_terminal(),
        m.monitor == Some(monitor),
        !monitor.position_violated(sample),
        !monitor.velocity_violated(sample),
        !monitor.current_violated(sample),
        !monitor.temperature_violated(sample),
        sample.timestamp - monitor.phase_started_at > monitor.limits.phase_timeout,
    ensures
        m.tick(sample).next.state == CalibrationState::Failed(ErrorCode::Timeout),
        m.tick(sample).complete,
{
}

/// The timeout is measured per phase: entering a phase starts its timer at
/// the time of the sample that caused the entry.
pub proof fn lemma_phase_entry_restarts_timer(m: ManagerModel, sample: MeasurementSample)
    requires
        m.wf(),
        !m.state.is_terminal(),
        m.gate(sample) is Ok,
        m.tick(sample).next.state != m.state,
        !m.tick(sample).next.state.is_terminal(),
    ensures
        m.tick(sample).next.monitor matches Some(monitor) && monitor.phase_started_at
            == sample.timestamp,
{
    match m.active {
        PhaseModel::Inertia(t) => {
            lemma_inertia_tick(t, sample);
        },
        PhaseModel::Friction(t) => {
            lemma_friction_tick(t, sample);
        },
        PhaseModel::Inactive => {},
    }
}

/// A valid configuration starts an idle manager, which then waits in
/// `Initializing`; the manager stays well formed.
pub proof fn lemma_start_enters_initializing(
    m: ManagerModel,
    config: CalibrationConfig,
    position: i32,
    now: i64,
)
    requires
        m.wf(),
        m.state is Idle,
        config.is_valid(),
    ensures
        m.started(config, position, now).state is Initializing,
        m.started(config, position, now).wf(),
{
}

/// Every velocity that a fresh friction estimator visits is a fraction of
/// the maximal velocity: none exceeds it either way.
pub proof fn lemma_setpoints_within_limit(kt: int, max_velocity: int, point: int)
    requires
        0 < max_velocity <= i32::MAX,
        0 <= point < NUM_VELOCITIES,
    ensures
        -max_velocity <= FrictionModel::initial(kt, max_velocity).setpoints[point] <= max_velocity,
{
    let forward = quot(max_velocity * tenths_at(point), 10);
    assert(0 <= forward <= max_velocity) by {
        assert(0 <= max_velocity * tenths_at(point) <= max_velocity * 8) by (nonlinear_arith)
            requires
                0 < max_velocity,
                1 <= tenths_at(point) <= 8,
        ;
    }
    assert(setpoint_at(max_velocity, point) == forward || setpoint_at(max_velocity, point)
        == -forward);
}

/// The manager never commands a velocity beyond the configured maximum, nor
/// a current beyond the 5 A of the last inertia trial.
pub proof fn lemma_commands_within_bounds(m: ManagerModel, sample: MeasurementSample)
    requires
        m.wf(),
        !m.state.is_terminal(),
        m.monitor is Some,
    ensures
        -m.config.max_velocity <= m.tick(sample).velocity <= m.config.max_velocity,
        0 <= m.tick(sample).current <= 5_000_000,
{
    match m.active {
        PhaseModel::Friction(t) => {
            lemma_friction_tick(t, sample);
            lemma_friction_command(t, sample);
            lemma_setpoints_within_limit(
                t.kt,
                m.config.max_velocity as int,
                t.velocity_index as int,
            );
        },
        PhaseModel::Inertia(t) => {
            lemma_inertia_command(t, sample);
        },
        PhaseModel::Inactive => {},
    }
}

/// Results accumulate: a tick changes the result of no phase but the one in
/// progress, and it never changes the configuration.
pub proof fn lemma_results_accumulate(m: ManagerModel, sample: MeasurementSample)
    ensures
        !(m.state is InertiaTest) ==> m.tick(sample).next.results.inertia == m.results.inertia,
        !(m.state is FrictionTest) ==> m.tick(sample).next.results.friction
            == m.results.friction,
        m.tick(sample).next.results.torque_constant == m.results.torque_constant,
        m.tick(sample).next.results.damping == m.results.damping,
        m.tick(sample).next.config == m.config,
{
}

/// A run that has completed reports what it measured: every selected phase
/// that has an estimator has left its result, and the report holds the
/// measured inertia and friction in place of the defaults.
pub proof fn lemma_success_reports_measurements(m: ManagerModel, now: i64)
    requires
        m.wf(),
        m.state is Complete,
    ensures
        m.report(now).success,
        m.report(now).error_code == 0,
        m.config.selects(PHASE_INERTIA) ==> m.results.inertia is Some && m.report(
            now,
        ).parameters.inertia_J == m.results.inertia->0.J && m.report(now).confidence.overall
            <= m.results.inertia->0.confidence,
        m.config.selects(PHASE_FRICTION) ==> m.results.friction is Some && m.report(
            now,
        ).parameters.friction_coulomb == m.results.friction->0.tau_coulomb && m.report(
            now,
        ).confidence.overall <= m.results.friction->0.confidence,
{
}

/// A run that has failed reports no success, and the code of its failure.
pub proof fn lemma_failure_reports_its_code(m: ManagerModel, code: ErrorCode, now: i64)
    requires
        m.state == CalibrationState::Failed(code),
    ensures
        !m.report(now).success,
        m.report(now).error_code == code.spec_code(),
{
}

} // verus!
