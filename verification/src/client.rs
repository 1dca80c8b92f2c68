//! Logging in: the participant takes up the session it kept where it can,
//! and logs in afresh where it cannot.

use vstd::prelude::*;

verus! {

/// Where the participant stands on its way to a session.
#[derive(Clone, Copy, Debug, PartialEq, Eq, Structural)]
pub enum LoginStep {
    /// Ask whether the store holds a session that is logged in.
    AskLoggedIn,
    /// Ask whether a session file exists.
    AskSessionFile,
    /// Restore the session from the file.
    RestoreSession,
    /// Ask whether the restored session is logged in.
    AskRestored,
    /// Synchronize once with the restored session.
    SyncRestored,
    /// Wipe the store, log in with the password, keep the session in the
    /// file and synchronize once.
    LoginAfresh,
    /// The participant has a session.
    Ready,
    /// Logging in afresh failed: there is no session to be had.
    Failed,
}

/// The step that follows `step` when it went well, or was answered with
/// yes, and when not. Whatever goes wrong with the session that was kept
/// leads to a fresh login; only a fresh login that fails is final.
pub open spec fn login_step_after(step: LoginStep, yes: bool) -> LoginStep {
    match step {
        LoginStep::AskLoggedIn => if yes {
            LoginStep::Ready
        } else {
            LoginStep::AskSessionFile
        },
        LoginStep::AskSessionFile => if yes {
            LoginStep::RestoreSession
        } else {
            LoginStep::LoginAfresh
        },
        LoginStep::RestoreSession => if yes {
            LoginStep::AskRestored
        } else {
            LoginStep::LoginAfresh
        },
        LoginStep::AskRestored => if yes {
            LoginStep::SyncRestored
        } else {
            LoginStep::LoginAfresh
        },
        LoginStep::SyncRestored => if yes {
            LoginStep::Ready
        } else {
            LoginStep::LoginAfresh
        },
        LoginStep::LoginAfresh => if yes {
            LoginStep::Ready
        } else {
            LoginStep::Failed
        },
        LoginStep::Ready => LoginStep::Ready,
        LoginStep::Failed => LoginStep::Failed,
    }
}

/// The step that follows `step`, given how it went.
pub fn next_login_step(step: LoginStep, yes: bool) -> (next: LoginStep)
    ensures
        next == login_step_after(step, yes),
{
    match step {
        LoginStep::AskLoggedIn => if yes {
            LoginStep::Ready
        } else {
            LoginStep::AskSessionFile
        },
        LoginStep::AskSessionFile => if yes {
            LoginStep::RestoreSession
        } else {
            LoginStep::LoginAfresh
        },
        LoginStep::RestoreSession => if yes {
            LoginStep::AskRestored
        } else {
            LoginStep::LoginAfresh
        },
        LoginStep::AskRestored => if yes {
            LoginStep::SyncRestored
        } else {
            LoginStep::LoginAfresh
        },
        LoginStep::SyncRestored => if yes {
            LoginStep::Ready
        } else {
            LoginStep::LoginAfresh
        },
        LoginStep::LoginAfresh => if yes {
            LoginStep::Ready
        } else {
            LoginStep::Failed
        },
        LoginStep::Ready => LoginStep::Ready,
        LoginStep::Failed => LoginStep::Failed,
    }
}

/// Where a run of answers leads from a step.
pub open spec fn login_run(step: LoginStep, answers: Seq<bool>) -> LoginStep
    decreases answers.len(),
{
    if answers.len() == 0 {
        step
    } else {
        login_run(login_step_after(step, answers[0]), answers.drop_first())
    }
}

/// Six answers settle every login; it fails only if the answer at the
/// fresh login is no.
pub proof fn lemma_login_settles(answers: Seq<bool>)
    requires
        answers.len() >= 6,
    ensures
        login_run(LoginStep::AskLoggedIn, answers) == LoginStep::Ready || login_run(
            LoginStep::AskLoggedIn,
            answers,
        ) == LoginStep::Failed,
{
    let s1 = login_step_after(LoginStep::AskLoggedIn, answers[0]);
    let a1 = answers.drop_first();
    let s2 = login_step_after(s1, a1[0]);
    let a2 = a1.drop_first();
    let s3 = login_step_after(s2, a2[0]);
    let a3 = a2.drop_first();
    let s4 = login_step_after(s3, a3[0]);
    let a4 = a3.drop_first();
    let s5 = login_step_after(s4, a4[0]);
    let a5 = a4.drop_first();
    let s6 = login_step_after(s5, a5[0]);
    let a6 = a5.drop_first();
    assert(login_run(LoginStep::AskLoggedIn, answers) == login_run(s1, a1));
    assert(login_run(s1, a1) == login_run(s2, a2));
    assert(login_run(s2, a2) == login_run(s3, a3));
    assert(login_run(s3, a3) == login_run(s4, a4));
    assert(login_run(s4, a4) == login_run(s5, a5));
    assert(login_run(s5, a5) == login_run(s6, a6));
    assert(s6 == LoginStep::Ready || s6 == LoginStep::Failed);
    lemma_settled_stays(s6, a6);
}

/// A login that is settled stays so.
pub proof fn lemma_settled_stays(step: LoginStep, answers: Seq<bool>)
    requires
        step == LoginStep::Ready || step == LoginStep::Failed,
    ensures
        login_run(step, answers) == step,
    decreases answers.len(),
{
    if answers.len() > 0 {
        lemma_settled_stays(step, answers.drop_first());
    }
}

} // verus!
