//! The course of one task: which step comes next, what each outcome
//! changes, and what the task returns in the end.
//!
//! The caller evaluates the step that is due, runs the subtasks that a step
//! asks for, and hands back what they came to; the order of the phases and
//! what a failure means are decided here.

use vstd::prelude::*;
use crate::error::DigError;
use crate::error::Failure;
use crate::step::common::store_of;
use crate::step::common::StepConfig;
use crate::step::common::StepEvaluationResult;
use crate::step::task_step::PreparedTaskStep;
use crate::task::extend_texts;
use crate::task::joined;
use crate::task::TaskConfig;
use crate::task::TaskEvaluationData;
use crate::text::strings_view;
use crate::value::json_parse;
use crate::value::parsed_or_text;
use crate::value::Json;
use crate::value::JsonValue;
use crate::vars::Vars;

verus! {

/// Where a task stands: in its pre-steps, its steps or its post-steps, or
/// at its end.
#[derive(Debug, Clone, Copy, PartialEq, Eq)]
pub enum Phase {
    Pre,
    Main,
    Post,
    Done,
}

/// Mathematical model of a [`TaskRun`].
pub struct Course {
    pub phase: Phase,
    pub index: int,
    pub vars: Vars,
    pub capture: bool,
    pub pre: Seq<Seq<char>>,
    pub main: Seq<Seq<char>>,
    pub post: Seq<Seq<char>>,
    pub pre_error: Option<Failure>,
    pub main_error: Option<Failure>,
    pub post_error: Option<Failure>,
}

/// A task that is being evaluated.
#[derive(Debug, PartialEq)]
pub struct TaskRun {
    pub data: TaskEvaluationData,
    pub capture_output: bool,
    pub phase: Phase,
    /// The index, within the phase, of the step that is due.
    pub index: usize,
    pub pre: Vec<String>,
    pub main: Vec<String>,
    pub post: Vec<String>,
    pub pre_error: Option<DigError>,
    pub main_error: Option<DigError>,
    pub post_error: Option<DigError>,
}

/// The model of an error that may be absent.
pub open spec fn failure_of(error: Option<DigError>) -> Option<Failure> {
    match error {
        Some(e) => Some(e@),
        None => None,
    }
}

impl View for TaskRun {
    type V = Course;

    open spec fn view(&self) -> Course {
        Course {
            phase: self.phase,
            index: self.index as int,
            vars: self.data.vars@,
            capture: self.capture_output,
            pre: strings_view(self.pre@),
            main: strings_view(self.main@),
            post: strings_view(self.post@),
            pre_error: failure_of(self.pre_error),
            main_error: failure_of(self.main_error),
            post_error: failure_of(self.post_error),
        }
    }
}

/// The steps of a phase of a task.
pub open spec fn steps_of(task: TaskConfig, phase: Phase) -> Seq<StepConfig> {
    match phase {
        Phase::Pre => match task.presteps {
            Some(s) => s@,
            None => Seq::empty(),
        },
        Phase::Main => task.steps@,
        Phase::Post => match task.poststeps {
            Some(s) => s@,
            None => Seq::empty(),
        },
        Phase::Done => Seq::empty(),
    }
}

/// Whether a step is due.
pub open spec fn step_due(task: TaskConfig, c: Course) -> bool {
    0 <= c.index < steps_of(task, c.phase).len()
}

/// The course at the start of the post-steps; without any, at the end.
pub open spec fn enter_post(task: TaskConfig, c: Course) -> Course {
    if steps_of(task, Phase::Post).len() > 0 {
        Course { phase: Phase::Post, index: 0, ..c }
    } else {
        Course { phase: Phase::Done, index: 0, ..c }
    }
}

/// The course after the steps have ended: `SUCCESS` is bound in the local
/// frame to whether they succeeded, and the post-steps begin.
pub open spec fn leave_main(task: TaskConfig, c: Course, succeeded: bool) -> Course {
    enter_post(task, Course { vars: c.vars.insert("SUCCESS"@, Json::Bool(succeeded)), ..c })
}

/// The course at the start of the steps; without any, they have succeeded.
pub open spec fn enter_main(task: TaskConfig, c: Course) -> Course {
    if steps_of(task, Phase::Main).len() > 0 {
        Course { phase: Phase::Main, index: 0, ..c }
    } else {
        leave_main(task, c, true)
    }
}

/// The course of a task at its start.
pub open spec fn begun(task: TaskConfig, vars: Vars, capture: bool) -> Course {
    let c = Course {
        phase: Phase::Pre,
        index: 0,
        vars,
        capture,
        pre: Seq::empty(),
        main: Seq::empty(),
        post: Seq::empty(),
        pre_error: None,
        main_error: None,
        post_error: None,
    };
    if steps_of(task, Phase::Pre).len() > 0 {
        c
    } else {
        enter_main(task, c)
    }
}

/// The course after the step that was due is done: the next step of the
/// phase is due, or the next phase begins.
pub open spec fn advanced(task: TaskConfig, c: Course) -> Course {
    if c.index + 1 < steps_of(task, c.phase).len() {
        Course { index: c.index + 1, ..c }
    } else {
        match c.phase {
            Phase::Pre => enter_main(task, c),
            Phase::Main => leave_main(task, c, true),
            Phase::Post => Course { phase: Phase::Done, index: 0, ..c },
            Phase::Done => c,
        }
    }
}

/// The course after the step that was due has failed. A failed pre-step
/// ends the task. A failed step ends the steps: the post-steps still run.
/// A failed post-step ends the task.
pub open spec fn failed(task: TaskConfig, c: Course, error: Failure) -> Course {
    match c.phase {
        Phase::Pre => Course { phase: Phase::Done, index: 0, pre_error: Some(error), ..c },
        Phase::Main => leave_main(task, Course { main_error: Some(error), ..c }, false),
        Phase::Post => Course { phase: Phase::Done, index: 0, post_error: Some(error), ..c },
        Phase::Done => c,
    }
}

/// The course with outputs added to those of its phase.
pub open spec fn with_outputs(c: Course, more: Seq<Seq<char>>) -> Course {
    match c.phase {
        Phase::Pre => Course { pre: c.pre + more, ..c },
        Phase::Main => Course { main: c.main + more, ..c },
        Phase::Post => Course { post: c.post + more, ..c },
        Phase::Done => c,
    }
}

/// The course after a step has completed with an output: the output is
/// kept if outputs are captured, and bound to the step's key if it has one,
/// parsed as JSON when possible.
pub open spec fn completed(c: Course, store: Option<Seq<char>>, text: Seq<char>) -> Course {
    let kept = if c.capture {
        with_outputs(c, seq![text])
    } else {
        c
    };
    match store {
        Some(key) => Course {
            vars: kept.vars.insert(key, parsed_or_text(json_parse(text), text)),
            ..kept
        },
        None => kept,
    }
}

/// The course after the step that is due came to an outcome. Subtasks are
/// waited for: the course stays until what they came to is handed in.
pub open spec fn after_step(
    task: TaskConfig,
    c: Course,
    outcome: Result<StepEvaluationResult, DigError>,
) -> Course {
    if !step_due(task, c) {
        c
    } else {
        match outcome {
            Err(e) => failed(task, c, e@),
            Ok(StepEvaluationResult::SkippedDueToIfStatement(_)) => advanced(task, c),
            Ok(StepEvaluationResult::Completed(text)) => advanced(
                task,
                completed(c, store_of(steps_of(task, c.phase)[c.index]), text@),
            ),
            Ok(StepEvaluationResult::SubmitTasks(_)) => c,
        }
    }
}

/// The course after the subtasks of the step that is due have ended: their
/// outputs are added in the order of submission; the first that failed
/// fails the step.
pub open spec fn after_subtasks(
    task: TaskConfig,
    c: Course,
    results: Seq<Result<Option<Vec<String>>, DigError>>,
) -> Course {
    if !step_due(task, c) {
        c
    } else {
        match joined(results, results.len() as int) {
            Err(e) => failed(task, c, e),
            Ok(outputs) => advanced(task, with_outputs(c, outputs)),
        }
    }
}

/// What a task returns at its end: the error of its pre-steps; else the
/// error of its steps; else the error of its post-steps; else its outputs
/// in order if they are captured.
pub open spec fn returned(c: Course) -> Result<Option<Seq<Seq<char>>>, Failure> {
    match c.pre_error {
        Some(e) => Err(e),
        None => match c.main_error {
            Some(e) => Err(e),
            None => match c.post_error {
                Some(e) => Err(e),
                None => if c.capture {
                    Ok(Some(c.pre + c.main + c.post))
                } else {
                    Ok(None)
                },
            },
        },
    }
}

/// Post-steps are always attempted: when a step fails and the task has
/// post-steps, the first of them is due next.
pub proof fn lemma_post_steps_follow_failure(task: TaskConfig, c: Course, error: Failure)
    requires
        c.phase is Main,
        steps_of(task, Phase::Post).len() > 0,
    ensures
        failed(task, c, error).phase is Post,
        failed(task, c, error).index == 0,
        failed(task, c, error).main_error == Some(error),
        returned(failed(task, c, error)) is Err,
{
}

/// How many steps may still become due.
pub open spec fn remaining(task: TaskConfig, c: Course) -> int {
    let pre = steps_of(task, Phase::Pre).len() as int;
    let main = steps_of(task, Phase::Main).len() as int;
    let post = steps_of(task, Phase::Post).len() as int;
    match c.phase {
        Phase::Pre => pre - c.index + main + post,
        Phase::Main => main - c.index + post,
        Phase::Post => post - c.index,
        Phase::Done => 0,
    }
}

/// A task comes to its end: every outcome of a step that is due, other
/// than a request for subtasks, and every end of its subtasks leaves fewer
/// steps that may still become due; and at the end none is due.
pub proof fn lemma_run_progress(
    task: TaskConfig,
    c: Course,
    outcome: Result<StepEvaluationResult, DigError>,
    results: Seq<Result<Option<Vec<String>>, DigError>>,
)
    requires
        step_due(task, c),
    ensures
        remaining(task, c) > 0,
        !(outcome matches Ok(StepEvaluationResult::SubmitTasks(_))) ==> 0 <= remaining(
            task,
            after_step(task, c, outcome),
        ) < remaining(task, c),
        0 <= remaining(task, after_subtasks(task, c, results)) < remaining(task, c),
        after_step(task, c, outcome).phase is Done ==> !step_due(
            task,
            after_step(task, c, outcome),
        ),
{
}

impl TaskRun {
    /// The number of steps in the phase.
    fn phase_len(&self, task: &TaskConfig) -> (r: usize)
        ensures
            r == steps_of(*task, self.phase).len(),
    {
        match self.phase {
            Phase::Pre => match &task.presteps {
                Some(s) => s.len(),
                None => 0,
            },
            Phase::Main => task.steps.len(),
            Phase::Post => match &task.poststeps {
                Some(s) => s.len(),
                None => 0,
            },
            Phase::Done => 0,
        }
    }

    fn go_post(&mut self, task: &TaskConfig)
        ensures
            final(self)@ == enter_post(*task, old(self)@),
            final(self).data.label == old(self).data.label,
            final(self).data.context == old(self).data.context,
    {
        let has_steps = match &task.poststeps {
            Some(s) => s.len() > 0,
            None => false,
        };
        self.index = 0;
        if has_steps {
            self.phase = Phase::Post;
        } else {
            self.phase = Phase::Done;
        }
    }

    fn end_main(&mut self, task: &TaskConfig, succeeded: bool)
        ensures
            final(self)@ == leave_main(*task, old(self)@, succeeded),
            final(self).data.label == old(self).data.label,
            final(self).data.context == old(self).data.context,
    {
        TaskConfig::mark_success(&mut self.data, succeeded);
        self.go_post(task);
    }

    fn go_main(&mut self, task: &TaskConfig)
        ensures
            final(self)@ == enter_main(*task, old(self)@),
            final(self).data.label == old(self).data.label,
            final(self).data.context == old(self).data.context,
    {
        if task.steps.len() > 0 {
            self.phase = Phase::Main;
            self.index = 0;
        } else {
            self.end_main(task, true);
        }
    }

    fn advance(&mut self, task: &TaskConfig)
        requires
            step_due(*task, old(self)@),
        ensures
            final(self)@ == advanced(*task, old(self)@),
            final(self).data.label == old(self).data.label,
            final(self).data.context == old(self).data.context,
    {
        let n = self.phase_len(task);
        if self.index + 1 < n {
            self.index = self.index + 1;
        } else {
            match self.phase {
                Phase::Pre => self.go_main(task),
                Phase::Main => self.end_main(task, true),
                Phase::Post => {
                    self.phase = Phase::Done;
                    self.index = 0;
                },
                Phase::Done => {},
            }
        }
    }

    fn fail(&mut self, task: &TaskConfig, error: DigError)
        ensures
            final(self)@ == failed(*task, old(self)@, error@),
            final(self).data.label == old(self).data.label,
            final(self).data.context == old(self).data.context,
    {
        match self.phase {
            Phase::Pre => {
                self.pre_error = Some(error);
                self.phase = Phase::Done;
                self.index = 0;
            },
            Phase::Main => {
                self.main_error = Some(error);
                self.end_main(task, false);
            },
            Phase::Post => {
                self.post_error = Some(error);
                self.phase = Phase::Done;
                self.index = 0;
            },
            Phase::Done => {},
        }
    }

    fn add_outputs(&mut self, more: &Vec<String>)
        ensures
            final(self)@ == with_outputs(old(self)@, strings_view(more@)),
            final(self).data == old(self).data,
    {
        match self.phase {
            Phase::Pre => extend_texts(&mut self.pre, more),
            Phase::Main => extend_texts(&mut self.main, more),
            Phase::Post => extend_texts(&mut self.post, more),
            Phase::Done => {},
        }
    }

    /// The run of a task at its start.
    pub fn begin(task: &TaskConfig, data: TaskEvaluationData, capture_output: bool) -> (r: TaskRun)
        ensures
            r@ == begun(*task, data.vars@, capture_output),
            r.data.label == data.label,
            r.data.context == data.context,
    {
        let mut run = TaskRun {
            data,
            capture_output,
            phase: Phase::Pre,
            index: 0,
            pre: Vec::new(),
            main: Vec::new(),
            post: Vec::new(),
            pre_error: None,
            main_error: None,
            post_error: None,
        };
        assert(strings_view(run.pre@) =~= Seq::<Seq<char>>::empty());
        let has_pre = match &task.presteps {
            Some(s) => s.len() > 0,
            None => false,
        };
        if !has_pre {
            run.go_main(task);
        }
        run
    }

    /// The step that is due; none at the end of the task.
    pub fn current<'a>(&self, task: &'a TaskConfig) -> (r: Option<&'a StepConfig>)
        ensures
            match r {
                Some(step) => step_due(*task, self@) && *step == steps_of(*task, self.phase)[self.index as int],
                None => !step_due(*task, self@),
            },
    {
        match self.phase {
            Phase::Pre => match &task.presteps {
                Some(s) => if self.index < s.len() {
                    Some(&s[self.index])
                } else {
                    None
                },
                None => None,
            },
            Phase::Main => if self.index < task.steps.len() {
                Some(&task.steps[self.index])
            } else {
                None
            },
            Phase::Post => match &task.poststeps {
                Some(s) => if self.index < s.len() {
                    Some(&s[self.index])
                } else {
                    None
                },
                None => None,
            },
            Phase::Done => None,
        }
    }

    /// Takes in what the step that is due came to. Where the step asks for
    /// subtasks, they are handed back to be run, and the step stays due
    /// until [`TaskRun::subtasks_done`] is told what they came to.
    pub fn step_done(&mut self, task: &TaskConfig, outcome: Result<StepEvaluationResult, DigError>) -> (r:
        Option<Vec<PreparedTaskStep>>)
        ensures
            final(self)@ == after_step(*task, old(self)@, outcome),
            final(self).data.label == old(self).data.label,
            final(self).data.context == old(self).data.context,
            match outcome {
                Ok(StepEvaluationResult::SubmitTasks(tasks)) => r == (if step_due(
                    *task,
                    old(self)@,
                ) {
                    Some(tasks)
                } else {
                    None
                }),
                _ => r is None,
            },
    {
        let step = match self.current(task) {
            Some(s) => s,
            None => {
                return None;
            },
        };
        match outcome {
            Err(e) => {
                self.fail(task, e);
                None
            },
            Ok(StepEvaluationResult::SkippedDueToIfStatement(_)) => {
                self.advance(task);
                None
            },
            Ok(StepEvaluationResult::Completed(text)) => {
                if self.capture_output {
                    let one = vec![text.clone()];
                    assert(strings_view(one@) =~= seq![text@]);
                    self.add_outputs(&one);
                }
                match step.get_store() {
                    Some(key) => {
                        self.data.vars.insert(key.clone(), JsonValue::from_output(text));
                    },
                    None => {},
                }
                self.advance(task);
                None
            },
            Ok(StepEvaluationResult::SubmitTasks(tasks)) => Some(tasks),
        }
    }

    /// Takes in what the subtasks of the step that is due came to, in the
    /// order in which they were submitted.
    pub fn subtasks_done(
        &mut self,
        task: &TaskConfig,
        results: &Vec<Result<Option<Vec<String>>, DigError>>,
    )
        ensures
            final(self)@ == after_subtasks(*task, old(self)@, results@),
            final(self).data.label == old(self).data.label,
            final(self).data.context == old(self).data.context,
    {
        if self.current(task).is_none() {
            return ;
        }
        match TaskConfig::gather_subtasks(results) {
            Err(e) => {
                self.fail(task, e);
            },
            Ok(outputs) => {
                self.add_outputs(&outputs);
                self.advance(task);
            },
        }
    }

    /// What the task returns.
    pub fn finish(self) -> (r: Result<Option<Vec<String>>, DigError>)
        ensures
            match r {
                Ok(Some(v)) => returned(self@) == Ok::<Option<Seq<Seq<char>>>, Failure>(
                    Some(strings_view(v@)),
                ),
                Ok(None) => returned(self@) == Ok::<Option<Seq<Seq<char>>>, Failure>(None),
                Err(e) => returned(self@) == Err::<Option<Seq<Seq<char>>>, Failure>(e@),
            },
    {
        match self.pre_error {
            Some(e) => {
                return Err(e);
            },
            None => {},
        }
        match self.main_error {
            Some(e) => {
                return Err(e);
            },
            None => {},
        }
        match self.post_error {
            Some(e) => {
                return Err(e);
            },
            None => {},
        }
        if self.capture_output {
            let mut all = self.pre;
            extend_texts(&mut all, &self.main);
            extend_texts(&mut all, &self.post);
            Ok(Some(all))
        } else {
            Ok(None)
        }
    }
}

} // verus!
