//! The fixture itself: a temporary directory, the database path inside it,
//! and how far teardown has come.

use vstd::prelude::*;
use vstd::string::*;

use crate::path::{database_path, derive_database_path};
use crate::teardown::{directive_at, stage_after, Directive, Stage};

verus! {

/// A temporary location for one database.
///
/// The fixture reserves a name and nothing more: no database stands at its
/// path until the caller opens one there. It cannot be copied or cloned, and
/// its path is lent out only through a borrow of the fixture, so that the path
/// cannot be kept while the fixture is given away.
pub struct TemporaryDBPath {
    dir: String,
    path: String,
    stage: Stage,
}

/// What a fixture is, as plain values. The database path is no part of it:
/// it follows from the directory.
pub struct TemporaryDBPathView {
    /// The temporary directory that the fixture owns.
    pub directory: Seq<char>,
    /// How far teardown has come.
    pub stage: Stage,
}

impl TemporaryDBPathView {
    /// Where the storage engine is to create the database.
    pub open spec fn path(self) -> Seq<char> {
        database_path(self.directory)
    }
}

impl View for TemporaryDBPath {
    type V = TemporaryDBPathView;

    closed spec fn view(&self) -> TemporaryDBPathView {
        TemporaryDBPathView { directory: self.dir@, stage: self.stage }
    }
}

impl TemporaryDBPath {
    #[verifier::type_invariant]
    spec fn path_is_derived(self) -> bool {
        self.path@ == database_path(self.dir@)
    }

    /// A live fixture for the freshly made temporary directory `dir`. Its
    /// database path is derived from `dir`; nothing is created there.
    pub fn new(dir: &str) -> (fixture: TemporaryDBPath)
        ensures
            fixture@ == (TemporaryDBPathView { directory: dir@, stage: Stage::Live }),
    {
        TemporaryDBPath {
            dir: String::from_str(dir),
            path: derive_database_path(dir),
            stage: Stage::Live,
        }
    }

    /// The database path, for as long as the fixture is borrowed.
    pub fn as_ref(&self) -> (path: &str)
        ensures
            path@ == self@.path(),
    {
        proof {
            use_type_invariant(self);
        }
        self.path.as_str()
    }

    /// The temporary directory that the fixture owns.
    pub fn directory(&self) -> (dir: &str)
        ensures
            dir@ == self@.directory,
    {
        self.dir.as_str()
    }

    /// How far teardown has come.
    pub fn stage(&self) -> (stage: Stage)
        ensures
            stage == self@.stage,
    {
        self.stage
    }

    /// What the caller has to do next: for a live fixture whose scope ends,
    /// the first step of teardown.
    pub fn pending(&self) -> (next: Directive)
        ensures
            next == directive_at(self@.stage),
    {
        self.stage.directive()
    }

    /// Takes the report on the pending step and says what to do next. The
    /// directory, and with it the path, stays as it is.
    pub fn record(&mut self, succeeded: bool) -> (next: Directive)
        ensures
            final(self)@ == (TemporaryDBPathView {
                stage: stage_after(old(self)@.stage, succeeded),
                ..old(self)@
            }),
            next == directive_at(final(self)@.stage),
    {
        proof {
            use_type_invariant(&*self);
        }
        self.stage = self.stage.after(succeeded);
        self.stage.directive()
    }
}

} // verus!
