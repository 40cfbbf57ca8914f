//! Bringing up the Bluetooth controller (and, for a full driver, the Bluedroid
//! host): the order of the ESP-IDF calls, stopping at the first that fails.
//! The controller configurations are in `controller_config`.
use vstd::prelude::*;

use crate::bt::EspBtMode;
use crate::esp_error::{EspError, ESP_OK};

verus! {

/// One ESP-IDF call of a bring-up.
#[derive(Debug, Clone, Copy, PartialEq, Eq, Structural)]
pub enum BringupStep {
    /// `esp_bt_controller_init` with the controller configuration.
    ControllerInit,
    /// `esp_bt_controller_enable` in the given mode.
    ControllerEnable(EspBtMode),
    /// `esp_bluedroid_init`.
    BluedroidInit,
    /// `esp_bluedroid_enable`.
    BluedroidEnable,
}

/// The calls of a bring-up, in order: initialize and enable the controller in
/// `mode`, then, with a host, initialize and enable Bluedroid.
pub open spec fn bringup_plan(mode: EspBtMode, with_host: bool) -> Seq<BringupStep> {
    if with_host {
        seq![
            BringupStep::ControllerInit,
            BringupStep::ControllerEnable(mode),
            BringupStep::BluedroidInit,
            BringupStep::BluedroidEnable,
        ]
    } else {
        seq![BringupStep::ControllerInit, BringupStep::ControllerEnable(mode)]
    }
}

/// How far a bring-up has come: how many calls succeeded, and the code
/// returned by the call that failed, if one did.
pub struct BringupProgress {
    pub done: nat,
    pub failed: Option<i32>,
}

/// The progress after a call returned `code`: one more success for
/// `ESP_OK`, a failure with that code otherwise.
pub open spec fn progress_step(p: BringupProgress, code: i32) -> BringupProgress {
    if code == ESP_OK {
        BringupProgress { done: p.done + 1, failed: None }
    } else {
        BringupProgress { done: p.done, failed: Some(code) }
    }
}

/// The progress of a bring-up of `n` calls whose calls return `codes` in
/// turn: a call is made only while none has failed and calls remain.
pub open spec fn run_bringup(p: BringupProgress, n: nat, codes: Seq<i32>) -> BringupProgress
    decreases codes.len(),
{
    if p.failed is Some || p.done >= n || codes.len() == 0 {
        p
    } else {
        run_bringup(progress_step(p, codes[0]), n, codes.drop_first())
    }
}

/// The first code other than `ESP_OK`, if any.
pub open spec fn first_failure(codes: Seq<i32>) -> Option<i32>
    decreases codes.len(),
{
    if codes.len() == 0 {
        None
    } else if codes[0] != ESP_OK {
        Some(codes[0])
    } else {
        first_failure(codes.drop_first())
    }
}

/// A bring-up in progress: which calls remain, and whether one failed.
pub struct Bringup {
    mode: EspBtMode,
    steps: Vec<BringupStep>,
    done: usize,
    failure: Option<EspError>,
}

impl Bringup {
    /// The mode the controller is configured for and enabled in.
    pub closed spec fn spec_mode(&self) -> EspBtMode {
        self.mode
    }

    /// The calls of the bring-up, in order.
    pub closed spec fn steps(&self) -> Seq<BringupStep> {
        self.steps@
    }

    /// How many calls have succeeded.
    pub closed spec fn done(&self) -> nat {
        self.done as nat
    }

    /// The error of the call that failed, if one did.
    pub closed spec fn failure(&self) -> Option<EspError> {
        self.failure
    }

    /// How far the bring-up has come.
    pub open spec fn progress(&self) -> BringupProgress {
        BringupProgress {
            done: self.done(),
            failed: match self.failure() {
                Some(e) => Some(e.spec_code()),
                None => None,
            },
        }
    }

    /// The bring-up is consistent: no more calls succeeded than there are.
    pub closed spec fn wf(&self) -> bool {
        self.done <= self.steps@.len()
    }

    /// Whether the bring-up has ended, by a failure or by running every call.
    pub open spec fn is_finished(&self) -> bool {
        self.failure() is Some || self.done() == self.steps().len()
    }

    /// A bring-up that has made no call yet.
    pub fn new(mode: EspBtMode, with_host: bool) -> (r: Self)
        ensures
            r.wf(),
            r.steps() == bringup_plan(mode, with_host),
            r.spec_mode() == mode,
            r.done() == 0,
            r.failure() is None,
    {
        let mut steps: Vec<BringupStep> = Vec::new();
        steps.push(BringupStep::ControllerInit);
        steps.push(BringupStep::ControllerEnable(mode));
        if with_host {
            steps.push(BringupStep::BluedroidInit);
            steps.push(BringupStep::BluedroidEnable);
        }
        let r = Bringup { mode, steps, done: 0, failure: None };
        assert(r.steps() =~= bringup_plan(mode, with_host));
        r
    }

    /// The mode the controller is configured for (the `mode` of the
    /// controller configuration) and enabled in.
    pub fn mode(&self) -> (r: EspBtMode)
        ensures
            r == self.spec_mode(),
    {
        self.mode
    }

    /// The next call to make; `None` once the bring-up has ended.
    pub fn next_step(&self) -> (r: Option<BringupStep>)
        requires
            self.wf(),
        ensures
            r is None <==> self.is_finished(),
            r matches Some(step) ==> step == self.steps()[self.done() as int],
    {
        if self.failure.is_some() || self.done == self.steps.len() {
            None
        } else {
            Some(self.steps[self.done])
        }
    }

    /// Records what the call named by `next_step` returned: `ESP_OK` moves
    /// on to the next call, anything else ends the bring-up with that error.
    pub fn report(&mut self, code: i32)
        requires
            old(self).wf(),
            !old(self).is_finished(),
        ensures
            final(self).wf(),
            final(self).steps() == old(self).steps(),
            final(self).spec_mode() == old(self).spec_mode(),
            final(self).progress() == progress_step(old(self).progress(), code),
            code == ESP_OK ==> final(self).done() == old(self).done() + 1
                && final(self).failure() is None,
            code != ESP_OK ==> final(self).done() == old(self).done(),
            code != ESP_OK ==> (final(self).failure() matches Some(e) && e.spec_code() == code),
    {
        if code == ESP_OK {
            assert(self.done < self.steps.len());
            self.done = self.done + 1;
        } else {
            self.failure = Some(EspError::from_nonzero(code));
        }
    }

    /// How the bring-up ended: `Ok` when every call succeeded, the first
    /// failure otherwise; `None` while calls remain.
    pub fn outcome(&self) -> (r: Option<Result<(), EspError>>)
        requires
            self.wf(),
        ensures
            r is None <==> !self.is_finished(),
            self.failure() matches Some(e) ==> r == Some(Err::<(), EspError>(e)),
            (self.failure() is None && self.is_finished()) ==> r == Some(Ok::<(), EspError>(())),
    {
        match self.failure {
            Some(e) => Some(Err(e)),
            None => if self.done == self.steps.len() {
                Some(Ok(()))
            } else {
                None
            },
        }
    }
}

/// A bring-up stops at the first call that fails and reports that call's
/// code; when none of its `n` calls fails, all `n` are made and it succeeds.
pub proof fn lemma_bringup_stops_at_first_failure(n: nat, codes: Seq<i32>)
    requires
        codes.len() >= n,
    ensures
        run_bringup(BringupProgress { done: 0, failed: None }, n, codes).failed == first_failure(
            codes.take(n as int),
        ),
        run_bringup(BringupProgress { done: 0, failed: None }, n, codes).failed is None
            ==> run_bringup(BringupProgress { done: 0, failed: None }, n, codes).done == n,
{
    lemma_run_from(0, n, codes);
}

proof fn lemma_run_from(k: nat, n: nat, codes: Seq<i32>)
    requires
        k <= n,
        codes.len() >= n - k,
    ensures
        run_bringup(BringupProgress { done: k, failed: None }, n, codes).failed == first_failure(
            codes.take(n - k),
        ),
        run_bringup(BringupProgress { done: k, failed: None }, n, codes).failed is None
            ==> run_bringup(BringupProgress { done: k, failed: None }, n, codes).done == n,
    decreases n - k,
{
    let p = BringupProgress { done: k, failed: None };
    if k == n {
        assert(codes.take(0) =~= Seq::<i32>::empty());
    } else {
        let rest = codes.drop_first();
        let t = codes.take(n - k);
        assert(t.len() > 0);
        assert(t[0] == codes[0]);
        assert(t.drop_first() =~= rest.take(n - (k + 1)));
        assert(run_bringup(p, n, codes) == run_bringup(progress_step(p, codes[0]), n, rest));
        if codes[0] == ESP_OK {
            lemma_run_from(k + 1, n, rest);
        } else {
            assert(first_failure(t) == Some(codes[0]));
        }
    }
}

/// A bring-up asks for the controller's initialization first and for its
/// enabling, in the requested mode, second; a driver's bring-up goes on with
/// Bluedroid, a bare controller's stops there.
pub proof fn lemma_bringup_order(mode: EspBtMode, with_host: bool)
    ensures
        bringup_plan(mode, with_host)[0] == BringupStep::ControllerInit,
        bringup_plan(mode, with_host)[1] == BringupStep::ControllerEnable(mode),
        with_host ==> bringup_plan(mode, with_host).len() == 4
            && bringup_plan(mode, with_host)[2] == BringupStep::BluedroidInit
            && bringup_plan(mode, with_host)[3] == BringupStep::BluedroidEnable,
        !with_host ==> bringup_plan(mode, with_host).len() == 2,
{
}

} // verus!
