//! The mirror engine: a step machine over one inventory snapshot.
//!
//! The engine walks the listing in order. For every directory it asks for
//! the local directory to be created; for every file it either skips it
//! (already present locally, and force is off) or asks for it to be
//! fetched, checks the HTTP status of the fetch, and asks for the body to
//! be written. The surrounding binary performs each requested [`Action`]
//! and answers with an [`Event`]; the engine decides everything else. A
//! non-success status aborts the whole remaining run.

use vstd::prelude::*;
use crate::config::Grsync;
use crate::inventory::{Dir, Photos, files_before, total_files};
use crate::urls::{dir_path, dir_path_spec, file_path, file_path_spec, photo_url, photo_url_spec};

verus! {

/// What the binary reports back after performing an action. `Start` opens
/// the run; `Acked` answers an action with no interesting result (a
/// directory created, a skip logged, a body written); the other two carry
/// the result the engine asked for.
#[derive(Clone, Copy)]
pub enum Event {
    Start,
    Acked,
    ExistsResult(bool),
    FetchStatus(u16),
}

/// What the engine asks the binary to do next. Paths and URLs are built by
/// the engine; the binary only performs them.
#[derive(Clone)]
pub enum Action {
    /// Create this local directory and all missing ancestors.
    CreateDir(String),
    /// Report whether this local file exists.
    CheckExists(String),
    /// GET this URL; report the HTTP status and keep the response.
    Fetch(String, String),
    /// Log that this file was skipped.
    Skip(String),
    /// Write the kept response body to this local file, creating or
    /// truncating it.
    Write(String),
    /// Abort the run: the fetch of this URL answered a non-success status.
    AbortRemote(String),
    /// The whole listing is mirrored.
    Finished,
}

/// Where the engine stands between two steps: which event it expects next.
#[derive(Clone, Copy)]
pub enum Stage {
    /// Expecting `Start`.
    Starting,
    /// A `CreateDir` is out; expecting `Acked`.
    CreatingDir,
    /// A `CheckExists` is out; expecting `ExistsResult`.
    CheckingFile,
    /// A `Skip` is out; expecting `Acked`.
    Skipping,
    /// A `Fetch` is out; expecting `FetchStatus`.
    Fetching,
    /// A `Write` is out; expecting `Acked`.
    Writing,
    /// Terminal: `Finished` was emitted.
    Done,
    /// Terminal: `AbortRemote` was emitted.
    Failed,
}

/// How one file of the listing was handled, in the order the walk reached
/// them. `Skipped`: force off, the local file existed, no request was made.
/// `Fetched`: force off, the local file was absent, it was downloaded.
/// `Refetched`: force on, it was downloaded without any existence check.
pub enum FileOutcome {
    Skipped,
    Fetched,
    Refetched,
}

/// The mirror engine's state: the configuration and listing it was built
/// from, its position in the walk, and a ghost record of the run so far —
/// the directory paths whose creation it asked for, the answers to its
/// existence checks, and the outcome of every file already handled.
pub struct Mirror {
    pub host: String,
    pub output_dir: String,
    pub force: bool,
    pub dirs: Vec<Dir>,
    pub dir_idx: usize,
    pub file_idx: usize,
    pub dir_created: bool,
    pub stage: Stage,
    pub created: Ghost<Seq<Seq<char>>>,
    pub checks: Ghost<Seq<bool>>,
    pub outcomes: Ghost<Seq<FileOutcome>>,
}

impl Mirror {
    /// The flat position of the walk: how many files stand before the
    /// current one in listing order.
    pub open spec fn pos(self) -> nat {
        files_before(self.dirs@, self.dir_idx as int) + self.file_idx as nat
    }

    /// The directory the walk stands in.
    pub open spec fn cur_dir(self) -> Dir {
        self.dirs@[self.dir_idx as int]
    }

    /// The engine's invariant. It ties the walk position to the stage, and
    /// the ghost record of the run to the configuration: every created
    /// path is the mirror of the corresponding listed directory, in order;
    /// with force on no existence check is ever made and every outcome is
    /// `Refetched`; with force off every handled file has exactly one
    /// check, and was skipped exactly when that check answered true.
    pub open spec fn wf(self) -> bool {
        &&& self.dir_idx <= self.dirs@.len()
        &&& self.outcomes@.len() == self.pos()
        &&& (self.stage is CheckingFile || self.stage is Skipping ==> !self.force)
        &&& match self.stage {
            Stage::Starting => {
                &&& self.dir_idx == 0
                &&& self.file_idx == 0
                &&& !self.dir_created
                &&& self.created@.len() == 0
                &&& self.checks@.len() == 0
            },
            Stage::CreatingDir => {
                &&& self.dir_idx < self.dirs@.len()
                &&& self.file_idx == 0
                &&& !self.dir_created
                &&& self.created@.len() == self.dir_idx + 1
            },
            Stage::CheckingFile | Stage::Fetching | Stage::Writing => {
                &&& self.dir_idx < self.dirs@.len()
                &&& self.dir_created
                &&& self.file_idx < self.cur_dir().files@.len()
                &&& self.created@.len() == self.dir_idx + 1
            },
            Stage::Skipping => {
                &&& self.dir_idx < self.dirs@.len()
                &&& self.dir_created
                &&& 0 < self.file_idx <= self.cur_dir().files@.len()
                &&& self.created@.len() == self.dir_idx + 1
            },
            Stage::Done => {
                &&& self.dir_idx == self.dirs@.len()
                &&& self.file_idx == 0
                &&& self.created@.len() == self.dirs@.len()
            },
            Stage::Failed => self.dir_idx < self.dirs@.len(),
        }
        &&& forall|i: int|
            0 <= i < self.created@.len() ==> self.created@[i] == dir_path_spec(
                self.output_dir@,
                self.dirs@[i].name@,
            )
        &&& self.force ==> {
            &&& self.checks@.len() == 0
            &&& forall|k: int| 0 <= k < self.outcomes@.len() ==> self.outcomes@[k] is Refetched
        }
        &&& !self.force ==> {
            &&& forall|k: int|
                0 <= k < self.outcomes@.len() ==> (self.checks@[k] <==> self.outcomes@[k]
                    is Skipped)
            &&& forall|k: int| 0 <= k < self.outcomes@.len() ==> !(self.outcomes@[k] is Refetched)
            &&& match self.stage {
                Stage::Fetching | Stage::Writing => self.checks@.len() == self.outcomes@.len() + 1
                    && !self.checks@.last(),
                Stage::Failed => self.outcomes@.len() <= self.checks@.len() <= self.outcomes@.len()
                    + 1,
                _ => self.checks@.len() == self.outcomes@.len(),
            }
        }
    }

    /// The event the engine expects next; `step` may only be fed a
    /// matching one, and the terminal stages expect none.
    pub open spec fn expects(self, event: Event) -> bool {
        match self.stage {
            Stage::Starting => event is Start,
            Stage::CreatingDir | Stage::Skipping | Stage::Writing => event is Acked,
            Stage::CheckingFile => event is ExistsResult,
            Stage::Fetching => event is FetchStatus,
            Stage::Done | Stage::Failed => false,
        }
    }

    /// The engine stands between two pieces of work: the previous file or
    /// directory (if any) is fully handled, no check or fetch is in
    /// flight, and the run record matches the position. This is the state
    /// from which the next action is chosen.
    pub open spec fn ready(self) -> bool {
        &&& self.dir_idx <= self.dirs@.len()
        &&& self.outcomes@.len() == self.pos()
        &&& (self.dir_created ==> self.dir_idx < self.dirs@.len())
        &&& (!self.dir_created ==> self.file_idx == 0)
        &&& (self.dir_created ==> self.file_idx <= self.cur_dir().files@.len())
        &&& self.created@.len() == self.dir_idx + (if self.dir_created {
            1int
        } else {
            0int
        })
        &&& forall|i: int|
            0 <= i < self.created@.len() ==> self.created@[i] == dir_path_spec(
                self.output_dir@,
                self.dirs@[i].name@,
            )
        &&& self.force ==> {
            &&& self.checks@.len() == 0
            &&& forall|k: int| 0 <= k < self.outcomes@.len() ==> self.outcomes@[k] is Refetched
        }
        &&& !self.force ==> {
            &&& self.checks@.len() == self.outcomes@.len()
            &&& forall|k: int|
                0 <= k < self.outcomes@.len() ==> (self.checks@[k] <==> self.outcomes@[k]
                    is Skipped)
            &&& forall|k: int| 0 <= k < self.outcomes@.len() ==> !(self.outcomes@[k] is Refetched)
        }
    }

    /// The engine has mirrored the whole listing.
    pub open spec fn is_done(self) -> bool {
        self.stage is Done
    }

    /// The engine has aborted on a non-success fetch status.
    pub open spec fn is_failed(self) -> bool {
        self.stage is Failed
    }

    /// Builds the engine from one listing snapshot and the run
    /// configuration. A listing whose application-level code is not the
    /// success sentinel is rejected with its embedded message before any
    /// directory creation is asked for; otherwise the engine starts at the
    /// head of the listing with an empty run record.
    pub fn new(photos: Photos, config: Grsync) -> (r: Result<Mirror, String>)
        ensures
            photos.is_success() <==> r is Ok,
            r matches Ok(m) ==> {
                &&& m.wf()
                &&& m.stage is Starting
                &&& m.host == config.host
                &&& m.output_dir == config.output_dir
                &&& m.force == config.force
                &&& m.dirs == photos.dirs
                &&& m.created@.len() == 0
                &&& m.checks@.len() == 0
                &&& m.outcomes@.len() == 0
            },
            r matches Err(msg) ==> msg == photos.error_message,
    {
        if photos.error_code != 200 {
            return Err(photos.error_message);
        }
        Ok(
            Mirror {
                host: config.host,
                output_dir: config.output_dir,
                force: config.force,
                dirs: photos.dirs,
                dir_idx: 0,
                file_idx: 0,
                dir_created: false,
                stage: Stage::Starting,
                created: Ghost(Seq::empty()),
                checks: Ghost(Seq::empty()),
                outcomes: Ghost(Seq::empty()),
            },
        )
    }

    /// Advances past a fully handled file or directory if one was just
    /// completed, then chooses and emits the next piece of work: the next
    /// directory's creation, the current file's existence check (or its
    /// fetch, under force), or the end of the run. The run record of
    /// checks and outcomes is untouched.
    fn emit_next(&mut self) -> (a: Action)
        requires
            old(self).ready(),
        ensures
            final(self).wf(),
            emit_rel_at(
                *old(self),
                old(self).dir_idx as int,
                old(self).file_idx as int,
                old(self).dir_created,
                *final(self),
                a,
            ),
            final(self).checks@ == old(self).checks@,
            final(self).outcomes@ == old(self).outcomes@,
    {
        let n = self.dirs.len();
        if self.dir_created && self.file_idx == self.dirs[self.dir_idx].files.len() {
            assert(self.dir_idx < n);
            self.dir_idx = self.dir_idx + 1;
            self.file_idx = 0;
            self.dir_created = false;
        }
        if self.dir_idx == self.dirs.len() {
            self.stage = Stage::Done;
            return Action::Finished;
        }
        if !self.dir_created {
            let p = dir_path(self.output_dir.as_str(), self.dirs[self.dir_idx].name.as_str());
            proof {
                self.created@ = self.created@.push(p@);
            }
            self.stage = Stage::CreatingDir;
            return Action::CreateDir(p);
        }
        let dname = self.dirs[self.dir_idx].name.as_str();
        let fname = self.dirs[self.dir_idx].files[self.file_idx].as_str();
        if self.force {
            self.stage = Stage::Fetching;
            Action::Fetch(
                photo_url(self.host.as_str(), dname, fname),
                file_path(self.output_dir.as_str(), dname, fname),
            )
        } else {
            self.stage = Stage::CheckingFile;
            Action::CheckExists(file_path(self.output_dir.as_str(), dname, fname))
        }
    }

    /// Feeds the engine one event and takes its next action. The event
    /// must answer the action last emitted (`expects`); the pair of old
    /// and new state with the action satisfies the transition relation
    /// `step_rel`, which pins every decision down. The direct clauses
    /// below restate the decisions a caller relies on: a fetch is asked
    /// only under force or after the file was found absent, a skip only
    /// after it was found present, and an abort exactly on a non-success
    /// fetch status, which freezes the run record as it stood.
    pub fn step(&mut self, event: Event) -> (a: Action)
        requires
            old(self).wf(),
            old(self).expects(event),
        ensures
            final(self).wf(),
            step_rel(*old(self), event, *final(self), a),
            a is Fetch ==> old(self).force || event == Event::ExistsResult(false),
            a is Skip ==> !old(self).force && event == Event::ExistsResult(true),
            a matches Action::Write(p) ==> {
                &&& old(self).stage is Fetching
                &&& event == Event::FetchStatus(200u16)
                &&& p@ == file_path_spec(
                    old(self).output_dir@,
                    old(self).cur_dir().name@,
                    old(self).cur_dir().files@[old(self).file_idx as int]@,
                )
                &&& old(self).force || !old(self).checks@.last()
            },
            a is AbortRemote <==> (event matches Event::FetchStatus(s) && s != 200),
            final(self).is_failed() <==> a is AbortRemote,
            final(self).is_done() <==> a is Finished,
            final(self).is_failed() ==> {
                &&& final(self).created@ == old(self).created@
                &&& final(self).outcomes@ == old(self).outcomes@
            },
    {
        let st = self.stage;
        match (st, event) {
            (Stage::Starting, Event::Start) => self.emit_next(),
            (Stage::CreatingDir, Event::Acked) => {
                self.dir_created = true;
                self.emit_next()
            },
            (Stage::CheckingFile, Event::ExistsResult(b)) => {
                proof {
                    self.checks@ = self.checks@.push(b);
                }
                let dname = self.dirs[self.dir_idx].name.as_str();
                let fname = self.dirs[self.dir_idx].files[self.file_idx].as_str();
                if b {
                    proof {
                        self.outcomes@ = self.outcomes@.push(FileOutcome::Skipped);
                    }
                    let name = self.dirs[self.dir_idx].files[self.file_idx].clone();
                    let flen = self.dirs[self.dir_idx].files.len();
                    assert(self.file_idx < flen);
                    self.file_idx = self.file_idx + 1;
                    self.stage = Stage::Skipping;
                    Action::Skip(name)
                } else {
                    self.stage = Stage::Fetching;
                    Action::Fetch(
                        photo_url(self.host.as_str(), dname, fname),
                        file_path(self.output_dir.as_str(), dname, fname),
                    )
                }
            },
            (Stage::Skipping, Event::Acked) => self.emit_next(),
            (Stage::Fetching, Event::FetchStatus(s)) => {
                let dname = self.dirs[self.dir_idx].name.as_str();
                let fname = self.dirs[self.dir_idx].files[self.file_idx].as_str();
                if s == 200 {
                    self.stage = Stage::Writing;
                    Action::Write(file_path(self.output_dir.as_str(), dname, fname))
                } else {
                    self.stage = Stage::Failed;
                    Action::AbortRemote(photo_url(self.host.as_str(), dname, fname))
                }
            },
            (Stage::Writing, Event::Acked) => {
                proof {
                    self.outcomes@ = self.outcomes@.push(
                        if self.force {
                            FileOutcome::Refetched
                        } else {
                            FileOutcome::Fetched
                        },
                    );
                }
                let flen = self.dirs[self.dir_idx].files.len();
                assert(self.file_idx < flen);
                self.file_idx = self.file_idx + 1;
                self.emit_next()
            },
            _ => vstd::pervasive::unreached(),
        }
    }
}

/// The effect of choosing the next piece of work when the walk stands at
/// directory `d`, file `f`, with `dc` saying whether directory `d` was
/// already entered: if the walk just finished a directory it moves to the
/// next one; then either the run is over (`Finished`), a new directory is
/// entered (`CreateDir` of its mirror path, recorded in `created`), or
/// the current file is decided (`Fetch` directly under force,
/// `CheckExists` otherwise). `pre` supplies the configuration, the
/// listing and the record so far; the record of checks and outcomes is
/// not constrained here.
pub open spec fn emit_rel_at(pre: Mirror, d: int, f: int, dc: bool, post: Mirror, a: Action) -> bool {
    let advanced = dc && f == pre.dirs@[d].files@.len();
    let d2 = if advanced {
        d + 1
    } else {
        d
    };
    &&& post.host == pre.host
    &&& post.output_dir == pre.output_dir
    &&& post.force == pre.force
    &&& post.dirs == pre.dirs
    &&& if d2 == pre.dirs@.len() {
        &&& a is Finished
        &&& post.stage is Done
        &&& post.dir_idx == d2
        &&& post.file_idx == 0
        &&& !post.dir_created
        &&& post.created@ == pre.created@
    } else if advanced || !dc {
        &&& a matches Action::CreateDir(p) && p@ == dir_path_spec(
            pre.output_dir@,
            pre.dirs@[d2].name@,
        )
        &&& post.stage is CreatingDir
        &&& post.dir_idx == d2
        &&& post.file_idx == 0
        &&& !post.dir_created
        &&& post.created@ == pre.created@.push(dir_path_spec(pre.output_dir@, pre.dirs@[d2].name@))
    } else {
        let dname = pre.dirs@[d].name@;
        let fname = pre.dirs@[d].files@[f]@;
        &&& post.dir_idx == d
        &&& post.file_idx == f
        &&& post.dir_created
        &&& post.created@ == pre.created@
        &&& if pre.force {
            &&& a matches Action::Fetch(u, p) && u@ == photo_url_spec(pre.host@, dname, fname)
                && p@ == file_path_spec(pre.output_dir@, dname, fname)
            &&& post.stage is Fetching
        } else {
            &&& a matches Action::CheckExists(p) && p@ == file_path_spec(
                pre.output_dir@,
                dname,
                fname,
            )
            &&& post.stage is CheckingFile
        }
    }
}

/// The engine's full transition relation: what one `step` on `pre` with
/// `event` yields. A fed-back answer either completes the piece of work
/// in flight — recording the check's answer and the file's outcome in the
/// run record — and lets the engine choose the next one (`emit_rel_at`),
/// or
/// turns a check into a fetch, a successful fetch into a write, and a
/// failed fetch into the terminal abort, with the run record frozen.
pub open spec fn step_rel(pre: Mirror, event: Event, post: Mirror, a: Action) -> bool {
    let dname = pre.cur_dir().name@;
    let fname = pre.cur_dir().files@[pre.file_idx as int]@;
    match (pre.stage, event) {
        (Stage::Starting, Event::Start) => {
            &&& emit_rel_at(pre, pre.dir_idx as int, pre.file_idx as int, pre.dir_created, post, a)
            &&& post.checks@ == pre.checks@
            &&& post.outcomes@ == pre.outcomes@
        },
        (Stage::CreatingDir, Event::Acked) => {
            &&& emit_rel_at(pre, pre.dir_idx as int, pre.file_idx as int, true, post, a)
            &&& post.checks@ == pre.checks@
            &&& post.outcomes@ == pre.outcomes@
        },
        (Stage::CheckingFile, Event::ExistsResult(b)) => {
            &&& post.host == pre.host
            &&& post.output_dir == pre.output_dir
            &&& post.force == pre.force
            &&& post.dirs == pre.dirs
            &&& post.dir_idx == pre.dir_idx
            &&& post.dir_created
            &&& post.created@ == pre.created@
            &&& post.checks@ == pre.checks@.push(b)
            &&& if b {
                &&& a matches Action::Skip(n) && n@ == fname
                &&& post.stage is Skipping
                &&& post.file_idx == pre.file_idx + 1
                &&& post.outcomes@ == pre.outcomes@.push(FileOutcome::Skipped)
            } else {
                &&& a matches Action::Fetch(u, p) && u@ == photo_url_spec(pre.host@, dname, fname)
                    && p@ == file_path_spec(pre.output_dir@, dname, fname)
                &&& post.stage is Fetching
                &&& post.file_idx == pre.file_idx
                &&& post.outcomes@ == pre.outcomes@
            }
        },
        (Stage::Skipping, Event::Acked) => {
            &&& emit_rel_at(pre, pre.dir_idx as int, pre.file_idx as int, pre.dir_created, post, a)
            &&& post.checks@ == pre.checks@
            &&& post.outcomes@ == pre.outcomes@
        },
        (Stage::Fetching, Event::FetchStatus(s)) => {
            &&& post.host == pre.host
            &&& post.output_dir == pre.output_dir
            &&& post.force == pre.force
            &&& post.dirs == pre.dirs
            &&& post.dir_idx == pre.dir_idx
            &&& post.file_idx == pre.file_idx
            &&& post.dir_created == pre.dir_created
            &&& post.created@ == pre.created@
            &&& post.checks@ == pre.checks@
            &&& post.outcomes@ == pre.outcomes@
            &&& if s == 200 {
                &&& a matches Action::Write(p) && p@ == file_path_spec(
                    pre.output_dir@,
                    dname,
                    fname,
                )
                &&& post.stage is Writing
            } else {
                &&& a matches Action::AbortRemote(u) && u@ == photo_url_spec(
                    pre.host@,
                    dname,
                    fname,
                )
                &&& post.stage is Failed
            }
        },
        (Stage::Writing, Event::Acked) => {
            let oc = if pre.force {
                FileOutcome::Refetched
            } else {
                FileOutcome::Fetched
            };
            &&& post.checks@ == pre.checks@
            &&& post.outcomes@ == pre.outcomes@.push(oc)
            &&& emit_rel_at(
                pre,
                pre.dir_idx as int,
                pre.file_idx + 1,
                pre.dir_created,
                post,
                a,
            )
        },
        _ => false,
    }
}

/// A completed run asked for exactly one local directory per listed
/// directory, in listing order, each at the output directory joined with
/// the remote name — whether or not the directory holds any file.
pub proof fn lemma_done_creates_each_dir_once(m: Mirror)
    requires
        m.wf(),
        m.is_done(),
    ensures
        m.created@.len() == m.dirs@.len(),
        forall|i: int|
            0 <= i < m.dirs@.len() ==> m.created@[i] == dir_path_spec(
                m.output_dir@,
                m.dirs@[i].name@,
            ),
{
}

/// With force off, a file whose existence check answered true was
/// skipped: its outcome is `Skipped`, so no fetch was asked for it and
/// its local contents were never touched.
pub proof fn lemma_present_file_skipped(m: Mirror, k: int)
    requires
        m.wf(),
        !m.force,
        0 <= k < m.outcomes@.len(),
        m.checks@[k],
    ensures
        m.outcomes@[k] is Skipped,
{
}

/// With force on, the engine never asks whether a file exists and every
/// handled file was re-fetched; a completed run re-fetched every file of
/// the listing.
pub proof fn lemma_force_refetches_all(m: Mirror)
    requires
        m.wf(),
        m.force,
    ensures
        m.checks@.len() == 0,
        forall|k: int| 0 <= k < m.outcomes@.len() ==> m.outcomes@[k] is Refetched,
        m.is_done() ==> m.outcomes@.len() == total_files(m.dirs@),
{
}

/// Round trip: with force off and every existence check answering true —
/// a second run over an unchanged listing, after a run that mirrored
/// everything — a completed run skips every file of the listing and
/// downloads none.
pub proof fn lemma_unchanged_rerun_all_skipped(m: Mirror)
    requires
        m.wf(),
        m.is_done(),
        !m.force,
        forall|k: int| 0 <= k < m.checks@.len() ==> m.checks@[k],
    ensures
        m.outcomes@.len() == total_files(m.dirs@),
        forall|k: int| 0 <= k < m.outcomes@.len() ==> m.outcomes@[k] is Skipped,
        forall|k: int| 0 <= k < m.outcomes@.len() ==> !(m.outcomes@[k] is Fetched),
        forall|k: int| 0 <= k < m.outcomes@.len() ==> !(m.outcomes@[k] is Refetched),
{
    assert forall|k: int| 0 <= k < m.outcomes@.len() implies m.outcomes@[k] is Skipped by {
        assert(m.checks@[k]);
    }
}

} // verus!
