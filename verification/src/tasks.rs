//! The order in which the parts of the program are started and taken down.
use vstd::prelude::*;

verus! {

/// A piece of work on the way from the start of the program to its end.
#[derive(Clone, Copy, Debug, PartialEq, Eq, Structural)]
pub enum Stage {
    /// Set up the server that the game reports to.
    BuildServer,
    /// Start the thread that runs timers and scripts' commands.
    SpawnTimer,
    /// Start the scripts.
    StartScripts,
    /// Wait until the session with the devices is over.
    AwaitSession,
    /// Tell all parts to close.
    SendClose,
    /// Wait until the server has stopped.
    AwaitServer,
    /// Tell the timer thread to close.
    SendTimerClose,
    /// Wait until the timer thread has stopped.
    AwaitTimer,
}

/// What follows a piece of work.
#[derive(Clone, Copy, Debug, PartialEq, Eq, Structural)]
pub enum Turn {
    /// Go on with this.
    GoOn(Stage),
    /// The program has run its course.
    Finished,
    /// The program was not started, because this did not work. That is reported and is no error.
    NotStarted(Stage),
    /// The program breaks down, because this did not work.
    BreakDown(Stage),
}

/// Whether a piece of work belongs to the start of the program.
pub open spec fn is_start(stage: Stage) -> bool {
    stage == Stage::BuildServer || stage == Stage::SpawnTimer || stage == Stage::StartScripts
}

/// The place of a piece of work in their order.
pub open spec fn place(stage: Stage) -> nat {
    match stage {
        Stage::BuildServer => 0,
        Stage::SpawnTimer => 1,
        Stage::StartScripts => 2,
        Stage::AwaitSession => 3,
        Stage::SendClose => 4,
        Stage::AwaitServer => 5,
        Stage::SendTimerClose => 6,
        Stage::AwaitTimer => 7,
    }
}

/// What follows a piece of work that went well: the next in order, or the end.
pub open spec fn next(stage: Stage) -> Turn {
    match stage {
        Stage::BuildServer => Turn::GoOn(Stage::SpawnTimer),
        Stage::SpawnTimer => Turn::GoOn(Stage::StartScripts),
        Stage::StartScripts => Turn::GoOn(Stage::AwaitSession),
        Stage::AwaitSession => Turn::GoOn(Stage::SendClose),
        Stage::SendClose => Turn::GoOn(Stage::AwaitServer),
        Stage::AwaitServer => Turn::GoOn(Stage::SendTimerClose),
        Stage::SendTimerClose => Turn::GoOn(Stage::AwaitTimer),
        Stage::AwaitTimer => Turn::Finished,
    }
}

/// What follows a piece of work. The wait for the session goes well whenever the session comes to
/// an end, in good order or with an error; it does not where the session broke down.
pub open spec fn turn_after(stage: Stage, well: bool) -> Turn {
    if well {
        next(stage)
    } else if is_start(stage) {
        Turn::NotStarted(stage)
    } else {
        Turn::BreakDown(stage)
    }
}

/// The words with which a failed piece of work is reported, where it has any of its own.
pub open spec fn words_on(stage: Stage) -> Option<Seq<char>> {
    match stage {
        Stage::BuildServer => Some("couldn't set up CS integration server"@),
        Stage::SpawnTimer => None,
        Stage::StartScripts => Some("couldn't start script host"@),
        Stage::AwaitSession => None,
        Stage::SendClose => Some("Critical: Crashed sending close event."@),
        Stage::AwaitServer => Some("Critical: Crashed stopping GSI server."@),
        Stage::SendTimerClose => Some(
            "Critical: Crashed sending close to event processing thread."@,
        ),
        Stage::AwaitTimer => Some("Critical: failed to join timer thread"@),
    }
}

impl Stage {
    /// The first piece of work.
    pub fn first() -> (stage: Stage)
        ensures
            stage == Stage::BuildServer,
            place(stage) == 0,
    {
        Stage::BuildServer
    }

    /// Says what follows this piece of work, which went well or did not.
    pub fn turn(self, well: bool) -> (turn: Turn)
        ensures
            turn == turn_after(self, well),
    {
        if !well {
            match self {
                Stage::BuildServer | Stage::SpawnTimer | Stage::StartScripts => {
                    return Turn::NotStarted(self);
                },
                _ => {
                    return Turn::BreakDown(self);
                },
            }
        }
        match self {
            Stage::BuildServer => Turn::GoOn(Stage::SpawnTimer),
            Stage::SpawnTimer => Turn::GoOn(Stage::StartScripts),
            Stage::StartScripts => Turn::GoOn(Stage::AwaitSession),
            Stage::AwaitSession => Turn::GoOn(Stage::SendClose),
            Stage::SendClose => Turn::GoOn(Stage::AwaitServer),
            Stage::AwaitServer => Turn::GoOn(Stage::SendTimerClose),
            Stage::SendTimerClose => Turn::GoOn(Stage::AwaitTimer),
            Stage::AwaitTimer => Turn::Finished,
        }
    }

    /// The words with which the failure of this piece of work is reported.
    pub fn failure_words(self) -> (words: Option<&'static str>)
        ensures
            words is Some <==> words_on(self) is Some,
            words is Some ==> words->0@ == words_on(self)->0,
    {
        match self {
            Stage::BuildServer => Some("couldn't set up CS integration server"),
            Stage::SpawnTimer => None,
            Stage::StartScripts => Some("couldn't start script host"),
            Stage::AwaitSession => None,
            Stage::SendClose => Some("Critical: Crashed sending close event."),
            Stage::AwaitServer => Some("Critical: Crashed stopping GSI server."),
            Stage::SendTimerClose => Some(
                "Critical: Crashed sending close to event processing thread.",
            ),
            Stage::AwaitTimer => Some("Critical: failed to join timer thread"),
        }
    }
}

/// The stage that the program gets to when so many pieces of work have gone well.
pub open spec fn stage_at(n: nat) -> Turn
    decreases n,
{
    if n == 0 {
        Turn::GoOn(Stage::BuildServer)
    } else {
        match stage_at((n - 1) as nat) {
            Turn::GoOn(stage) => turn_after(stage, true),
            end => end,
        }
    }
}

/// Work goes on only from one piece to the one that comes next in order: nothing is left out and
/// nothing is done twice. So the server is down before the timer thread is told to close, and
/// the timer thread is told to close before it is waited for.
pub proof fn law_work_is_done_in_order(stage: Stage, well: bool)
    ensures
        turn_after(stage, well) is GoOn ==> place(turn_after(stage, well)->GoOn_0) == place(stage)
            + 1,
        turn_after(stage, well) == Turn::Finished ==> place(stage) == 7,
{
}

/// A program of which every piece of work goes well runs its course, and ends after the last.
pub proof fn law_program_runs_its_course(n: nat)
    ensures
        n < 8 ==> stage_at(n) is GoOn && place(stage_at(n)->GoOn_0) == n,
        n >= 8 ==> stage_at(n) == Turn::Finished,
    decreases n,
{
    if n > 0 {
        law_program_runs_its_course((n - 1) as nat);
    }
}

/// A failure breaks the program down only once it has been started; before that it is reported.
pub proof fn law_failed_start_is_reported(stage: Stage, well: bool)
    ensures
        turn_after(stage, well) is NotStarted <==> is_start(stage) && !well,
        turn_after(stage, well) is BreakDown <==> !is_start(stage) && !well,
        turn_after(stage, well) is NotStarted ==> place(stage) < place(Stage::AwaitSession),
{
}

} // verus!
