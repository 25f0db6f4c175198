//! Saving and reloading a file when a signal asks for it.
//!
//! A signal is latched in a [`Flag`]: whoever delivers signals raises it,
//! and the loop that owns it takes it down when it acts. Waiting for a flag
//! is the caller's part. What is decided here is what a raised flag leads
//! to, in which order, and what is left of the flags afterwards.

use vstd::prelude::*;

use crate::error::Error;

verus! {

/// What a loop did when a flag was up.
#[derive(Debug, Clone, Copy, PartialEq, Eq, Structural)]
pub enum Action {
    /// The file was saved, on a request to terminate.
    TermSave,
    /// The file was loaded again, on a request to reload.
    Load,
}

/// A file that can be saved and loaded again as a whole. Access to it is
/// the implementor's to guard: each call is one exclusive use of the file.
pub trait TFile {
    /// Writes the value out.
    fn save(&self) -> Result<(), Error>;

    /// Replaces the value by what the file holds.
    fn load(&mut self) -> Result<(), Error>;
}

/// A latch for one kind of signal: up from the delivery of a signal until
/// the owner takes it down.
#[derive(Debug)]
pub struct Flag {
    raised: bool,
}

impl Flag {
    /// Whether a signal was delivered and not acted on yet.
    pub closed spec fn raised(&self) -> bool {
        self.raised
    }

    /// A flag that is down.
    pub fn new() -> (flag: Flag)
        ensures
            !flag.raised(),
    {
        Flag { raised: false }
    }

    /// Delivers a signal. A flag that is up already stays up: signals that
    /// arrive before the owner looks count as one.
    pub fn raise(&mut self)
        ensures
            final(self).raised(),
    {
        self.raised = true;
    }

    /// Sets the flag to `flag` and says what it was.
    pub fn swap(&mut self, flag: bool) -> (was: bool)
        ensures
            was == old(self).raised(),
            final(self).raised() == flag,
    {
        let was = self.raised;
        self.raised = flag;
        was
    }

    /// Whether the flag is up.
    pub fn is_raised(&self) -> (up: bool)
        ensures
            up == self.raised(),
    {
        self.raised
    }
}

impl Action {
    /// What is due when the flags stand at `save` and `load`: saving comes
    /// before loading, and nothing is due while both are down.
    pub open spec fn due(save: bool, load: bool) -> Option<Action> {
        if save {
            Some(Action::TermSave)
        } else if load {
            Some(Action::Load)
        } else {
            None
        }
    }

    /// How the flags stand once what was due has been taken up: the flag
    /// that led to it is down, the other one is as it was.
    pub open spec fn left(save: bool, load: bool) -> (bool, bool) {
        if save {
            (false, load)
        } else {
            (false, false)
        }
    }

    /// What a loop reports for this action, given how saving or loading
    /// went: the action where it went well, and the failure as it is.
    pub open spec fn outcome_of(self, done: Result<(), Error>) -> Result<Action, Error> {
        match done {
            Ok(()) => Ok(self),
            Err(e) => Err(e),
        }
    }

    /// What a loop reports for this action, given how saving or loading
    /// went.
    pub fn outcome(self, done: Result<(), Error>) -> (out: Result<Action, Error>)
        ensures
            out == self.outcome_of(done),
    {
        match done {
            Ok(()) => Ok(self),
            Err(e) => Err(e),
        }
    }

    /// With both flags up, saving is due, whatever else stands.
    pub proof fn lemma_save_comes_first(load: bool)
        ensures
            Action::due(true, load) == Some(Action::TermSave),
            Action::left(true, load) == (false, load),
    {
    }

    /// A flag that was raised once leads to one action: when only that flag
    /// was up, nothing is due after the action was taken up.
    pub proof fn lemma_one_signal_one_action(save: bool, load: bool)
        requires
            save != load,
        ensures
            Action::due(save, load) is Some,
            Action::due(Action::left(save, load).0, Action::left(save, load).1) is None,
    {
    }

    /// With both flags up, saving is taken up first and loading second, and
    /// then nothing is due.
    pub proof fn lemma_both_signals_two_actions()
        ensures
            Action::due(true, true) == Some(Action::TermSave),
            Action::due(Action::left(true, true).0, Action::left(true, true).1) == Some(Action::Load),
            Action::left(false, true) == (false, false),
    {
    }
}

/// `out` is what a loop reports after saving `file`: `TermSave` where saving
/// went well, and else the failure of saving.
pub open spec fn saved<T: TFile>(file: T, out: Result<Action, Error>) -> bool {
    exists|done: Result<(), Error>| #[trigger]
        call_ensures(T::save, (&file,), done) && out == Action::TermSave.outcome_of(done)
}

/// Saves a file when asked to terminate.
pub struct Saver<T: TFile> {
    /// Up from a request to terminate until the file is saved.
    pub flag: Flag,
    pub file: T,
}

impl<T: TFile> Saver<T> {
    /// A saver for `file`, with its flag down.
    pub fn new(file: T) -> (saver: Self)
        ensures
            !saver.flag.raised(),
            saver.file == file,
    {
        Saver { flag: Flag::new(), file }
    }

    /// What a run would take up now.
    pub fn pending(&self) -> (due: Option<Action>)
        ensures
            due == Action::due(self.flag.raised(), false),
    {
        if self.flag.is_raised() {
            Some(Action::TermSave)
        } else {
            None
        }
    }

    /// Takes the flag down and saves the file. A failure of saving is
    /// handed on, with the flag down all the same.
    pub fn run(&mut self) -> (out: Result<Action, Error>)
        requires
            old(self).flag.raised(),
        ensures
            !final(self).flag.raised(),
            final(self).file == old(self).file,
            saved(old(self).file, out),
    {
        self.flag.swap(false);
        Action::TermSave.outcome(self.file.save())
    }

    /// Takes the flag down, runs `f`, then saves the file.
    pub fn run_with<F: FnOnce() -> ()>(&mut self, f: F) -> (out: Result<Action, Error>)
        requires
            old(self).flag.raised(),
            call_requires(f, ()),
        ensures
            !final(self).flag.raised(),
            final(self).file == old(self).file,
            saved(old(self).file, out),
    {
        self.flag.swap(false);
        f();
        Action::TermSave.outcome(self.file.save())
    }
}

/// Loads a file again when asked to reload.
pub struct Loader<T: TFile> {
    /// Up from a request to reload until the file is loaded.
    pub flag: Flag,
    pub file: T,
}

impl<T: TFile> Loader<T> {
    /// A loader for `file`, with its flag down.
    pub fn new(file: T) -> (loader: Self)
        ensures
            !loader.flag.raised(),
            loader.file == file,
    {
        Loader { flag: Flag::new(), file }
    }

    /// What a run would take up now.
    pub fn pending(&self) -> (due: Option<Action>)
        ensures
            due == Action::due(false, self.flag.raised()),
    {
        if self.flag.is_raised() {
            Some(Action::Load)
        } else {
            None
        }
    }

    /// Takes the flag down and loads the file again: `out` is `Load` where
    /// loading went well, and else the failure of loading, which is handed
    /// on with the flag down all the same.
    pub fn run(&mut self) -> (out: Result<Action, Error>)
        requires
            old(self).flag.raised(),
        ensures
            !final(self).flag.raised(),
            exists|file: &mut T, done: Result<(), Error>|
                mut_ref_current(file) == old(self).file && mut_ref_future(file) == final(self).file
                    && #[trigger] call_ensures(T::load, (file,), done) && out
                    == Action::Load.outcome_of(done),
    {
        self.flag.swap(false);
        Action::Load.outcome(self.file.load())
    }
}

/// Saves a file when asked to terminate and loads it again when asked to
/// reload, saving first where both are asked for.
pub struct Keeper<T: TFile> {
    /// Up from a request to terminate until the file is saved.
    pub saver: Flag,
    /// Up from a request to reload until the file is loaded.
    pub loader: Flag,
    pub file: T,
}

impl<T: TFile> Keeper<T> {
    /// A keeper for `file`, with both flags down.
    pub fn new(file: T) -> (keeper: Self)
        ensures
            !keeper.saver.raised(),
            !keeper.loader.raised(),
            keeper.file == file,
    {
        Keeper { saver: Flag::new(), loader: Flag::new(), file }
    }

    /// What a run would take up now.
    pub fn pending(&self) -> (due: Option<Action>)
        ensures
            due == Action::due(self.saver.raised(), self.loader.raised()),
    {
        if self.saver.is_raised() {
            Some(Action::TermSave)
        } else if self.loader.is_raised() {
            Some(Action::Load)
        } else {
            None
        }
    }

    /// Takes up what is due: takes the flag that led to it down, then saves
    /// the file or loads it again. The other flag is left as it is, for the
    /// next run. A failure of saving or loading is handed on, with the flag
    /// down all the same.
    pub fn run(&mut self) -> (out: Result<Action, Error>)
        requires
            Action::due(old(self).saver.raised(), old(self).loader.raised()) is Some,
        ensures
            (final(self).saver.raised(), final(self).loader.raised()) == Action::left(
                old(self).saver.raised(),
                old(self).loader.raised(),
            ),
            out matches Ok(action) ==> Some(action) == Action::due(
                old(self).saver.raised(),
                old(self).loader.raised(),
            ),
            old(self).saver.raised() ==> final(self).file == old(self).file && saved(
                old(self).file,
                out,
            ),
            !old(self).saver.raised() ==> exists|file: &mut T, done: Result<(), Error>|
                mut_ref_current(file) == old(self).file && mut_ref_future(file) == final(self).file
                    && #[trigger] call_ensures(T::load, (file,), done) && out
                    == Action::Load.outcome_of(done),
    {
        if self.saver.swap(false) {
            Action::TermSave.outcome(self.file.save())
        } else {
            self.loader.swap(false);
            Action::Load.outcome(self.file.load())
        }
    }
}

} // verus!
