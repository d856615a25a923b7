//! Loading the script sources that a session names: one fetch after the
//! other, in the order given, and no session at all if any of them fails.

use vstd::prelude::*;
use vstd::string::*;

verus! {

/// Why the sources of a session could not be loaded.
#[derive(Debug, Clone, Copy, PartialEq)]
pub enum SourceInfoError {
    /// The value that should list the sources cannot be iterated.
    IterFailure { key: &'static str },
    /// Iterating over the list of sources failed part way.
    ActiveIterFailure { key: &'static str },
    /// An entry of the list is not a string.
    ExpectedString,
    /// The request for a source could not even be created.
    RequestCreationFailure,
    /// The request for a source failed.
    RequestFailure,
    /// The body of a response could not be read as text.
    BadRequestBody,
}

impl SourceInfoError {
    /// The text shown to whoever started the session.
    pub open spec fn message_spec(self) -> Seq<char> {
        match self {
            SourceInfoError::IterFailure { key } => "Expected property '"@ + key@
                + "' to be iterable"@,
            SourceInfoError::ActiveIterFailure { key } => "While iterating over '"@ + key@
                + "', experienced error in getting value"@,
            SourceInfoError::ExpectedString => {
                "Expected string, but got non-string value. (Good luck)."@
            },
            SourceInfoError::RequestCreationFailure => {
                "Failed to create network request before even sending it."@
            },
            SourceInfoError::RequestFailure => "Failure in network request."@,
            SourceInfoError::BadRequestBody => "Failed to get request body"@,
        }
    }

    /// Renders the error as the text shown to whoever started the session.
    pub fn message(&self) -> (text: String)
        ensures
            text@ == self.message_spec(),
    {
        match self {
            SourceInfoError::IterFailure { key } => {
                let mut text = String::from_str("Expected property '");
                text.append(key);
                text.append("' to be iterable");
                text
            },
            SourceInfoError::ActiveIterFailure { key } => {
                let mut text = String::from_str("While iterating over '");
                text.append(key);
                text.append("', experienced error in getting value");
                text
            },
            SourceInfoError::ExpectedString => String::from_str(
                "Expected string, but got non-string value. (Good luck).",
            ),
            SourceInfoError::RequestCreationFailure => String::from_str(
                "Failed to create network request before even sending it.",
            ),
            SourceInfoError::RequestFailure => String::from_str("Failure in network request."),
            SourceInfoError::BadRequestBody => String::from_str("Failed to get request body"),
        }
    }
}

/// Name of the session property that lists the sources.
pub const FILES_KEY: &'static str = "files";

/// One script source: the identifier it was fetched from and its text.
pub struct Source {
    /// The identifier the text was fetched from.
    pub name: String,
    /// The text itself.
    pub source: String,
}

impl Source {
    /// A source named `name` with the text `source`.
    pub fn new(name: String, source: String) -> (made: Source)
        ensures
            made.name == name,
            made.source == source,
    {
        Source { name, source }
    }
}

/// The sources of a session, in the order in which the session listed them.
pub struct SourceUserInfo {
    /// The sources, first listed first.
    pub sources: Vec<Source>,
}

impl View for SourceUserInfo {
    type V = Seq<(Seq<char>, Seq<char>)>;

    /// The pairs of identifier and text, in order.
    open spec fn view(&self) -> Seq<(Seq<char>, Seq<char>)> {
        Seq::new(self.sources@.len(), |i: int| (self.sources@[i].name@, self.sources@[i].source@))
    }
}

/// What reading the list of sources off the session object came to.
#[derive(Debug, Clone, Copy, PartialEq, Eq)]
pub enum FilesProbe {
    /// The property could not be read at all.
    Unreadable,
    /// The property was read, but its value cannot be iterated.
    NotIterable,
    /// The property was read and can be iterated.
    Iterable,
}

/// What fetching one listed source came to. The steps are taken in the order
/// of the variants, and the first that fails decides.
#[derive(Debug, PartialEq)]
pub enum FetchOutcome {
    /// Taking the next entry off the list failed.
    IterationFailed,
    /// The entry is not a string.
    NotAString,
    /// The request could not be created.
    RequestNotCreated,
    /// The request failed, or what came back is no response.
    RequestFailed,
    /// The body of the response could not be read as text.
    BodyUnreadable,
    /// The source was fetched.
    Loaded {
        /// The identifier that was listed.
        file: String,
        /// The text that was fetched from it.
        code: String,
    },
}

impl FetchOutcome {
    /// The error that this outcome stands for; none for a fetched source.
    pub open spec fn failure(self) -> Option<SourceInfoError> {
        match self {
            FetchOutcome::IterationFailed => Some(
                SourceInfoError::ActiveIterFailure { key: "files" },
            ),
            FetchOutcome::NotAString => Some(SourceInfoError::ExpectedString),
            FetchOutcome::RequestNotCreated => Some(SourceInfoError::RequestCreationFailure),
            FetchOutcome::RequestFailed => Some(SourceInfoError::RequestFailure),
            FetchOutcome::BodyUnreadable => Some(SourceInfoError::BadRequestBody),
            FetchOutcome::Loaded { .. } => None,
        }
    }

    /// The error that this outcome stands for; none for a fetched source.
    pub fn error(&self) -> (error: Option<SourceInfoError>)
        ensures
            error == self.failure(),
    {
        match self {
            FetchOutcome::IterationFailed => Some(
                SourceInfoError::ActiveIterFailure { key: "files" },
            ),
            FetchOutcome::NotAString => Some(SourceInfoError::ExpectedString),
            FetchOutcome::RequestNotCreated => Some(SourceInfoError::RequestCreationFailure),
            FetchOutcome::RequestFailed => Some(SourceInfoError::RequestFailure),
            FetchOutcome::BodyUnreadable => Some(SourceInfoError::BadRequestBody),
            FetchOutcome::Loaded { .. } => None,
        }
    }
}

/// The first `upto` outcomes are all fetched sources.
pub open spec fn all_loaded(outcomes: Seq<FetchOutcome>, upto: int) -> bool {
    forall|j: int| 0 <= j < upto ==> (#[trigger] outcomes[j]) is Loaded
}

/// The identifiers and texts of the first `upto` outcomes.
pub open spec fn loaded_texts(outcomes: Seq<FetchOutcome>, upto: int) -> Seq<
    (Seq<char>, Seq<char>),
> {
    Seq::new(upto as nat, |j: int| (outcomes[j]->file@, outcomes[j]->code@))
}

/// Outcome `k` is the first that is no fetched source.
pub open spec fn fails_first_at(outcomes: Seq<FetchOutcome>, k: int) -> bool {
    &&& 0 <= k < outcomes.len()
    &&& all_loaded(outcomes, k)
    &&& !(outcomes[k] is Loaded)
}

impl SourceUserInfo {
    /// A session without sources.
    pub fn new() -> (info: SourceUserInfo)
        ensures
            info@ == Seq::<(Seq<char>, Seq<char>)>::empty(),
    {
        let info = SourceUserInfo { sources: Vec::new() };
        assert(info@ =~= Seq::<(Seq<char>, Seq<char>)>::empty());
        info
    }

    /// How many sources the session has.
    pub fn len(&self) -> (n: usize)
        ensures
            n == self@.len(),
    {
        self.sources.len()
    }

    /// Adds a source behind those already there.
    pub fn insert(&mut self, source: Source)
        ensures
            final(self)@ == old(self)@.push((source.name@, source.source@)),
    {
        self.sources.push(source);
        assert(self@ =~= old(self)@.push((source.name@, source.source@)));
    }

    /// Assembles the sources of a session from what fetching them came to:
    /// every listed source in the order listed, or the error of the first
    /// outcome that is no fetched source. There is no partial success. A
    /// session whose list cannot be read or cannot be iterated fails, for
    /// want of an iterable list.
    pub fn try_from_js_value(files: FilesProbe, outcomes: &Vec<FetchOutcome>) -> (loaded: Result<
        SourceUserInfo,
        SourceInfoError,
    >)
        ensures
            !(files is Iterable) ==> loaded == Err::<SourceUserInfo, SourceInfoError>(
                SourceInfoError::IterFailure { key: "files" },
            ),
            files is Iterable && all_loaded(outcomes@, outcomes@.len() as int) ==> loaded is Ok
                && loaded->Ok_0@ == loaded_texts(outcomes@, outcomes@.len() as int),
            forall|k: int|
                files is Iterable && fails_first_at(outcomes@, k) ==> loaded == Err::<
                    SourceUserInfo,
                    SourceInfoError,
                >(outcomes@[k].failure()->0),
    {
        match files {
            FilesProbe::Unreadable => Err(SourceInfoError::IterFailure { key: "files" }),
            FilesProbe::NotIterable => Err(SourceInfoError::IterFailure { key: "files" }),
            FilesProbe::Iterable => {
                let mut info = SourceUserInfo::new();
                let mut i: usize = 0;
                while i < outcomes.len()
                    invariant
                        files is Iterable,
                        0 <= i <= outcomes.len(),
                        all_loaded(outcomes@, i as int),
                        info@ == loaded_texts(outcomes@, i as int),
                    decreases outcomes.len() - i,
                {
                    match &outcomes[i] {
                        FetchOutcome::Loaded { file, code } => {
                            info.insert(Source::new(file.clone(), code.clone()));
                            assert(info@ =~= loaded_texts(outcomes@, i + 1));
                        },
                        other => {
                            let error = other.error();
                            assert(fails_first_at(outcomes@, i as int));
                            assert forall|k: int| fails_first_at(outcomes@, k) implies k == i by {
                                if k < i {
                                    assert(outcomes@[k] is Loaded);
                                }
                                if k > i {
                                    assert(outcomes@[i as int] is Loaded);
                                }
                            }
                            return Err(error.unwrap());
                        },
                    }
                    i = i + 1;
                }
                assert forall|k: int| !fails_first_at(outcomes@, k) by {
                    if 0 <= k < outcomes@.len() {
                        assert(outcomes@[k] is Loaded);
                    }
                }
                Ok(info)
            },
        }
    }
}

/// Takes the outcomes of the fetches one at a time, as they come in, and
/// stops taking sources at the first that failed.
pub struct SourceLoader {
    sources: SourceUserInfo,
    failure: Option<SourceInfoError>,
}

impl SourceLoader {
    /// The sources taken so far.
    pub closed spec fn loaded(&self) -> Seq<(Seq<char>, Seq<char>)> {
        self.sources@
    }

    /// The error of the first outcome that failed, if one did.
    pub closed spec fn failed(&self) -> Option<SourceInfoError> {
        self.failure
    }

    /// A loader that has seen no outcome yet.
    pub fn new() -> (loader: SourceLoader)
        ensures
            loader.loaded() == Seq::<(Seq<char>, Seq<char>)>::empty(),
            loader.failed() is None,
    {
        SourceLoader { sources: SourceUserInfo::new(), failure: None }
    }

    /// Whether the next source should still be fetched: true until an outcome
    /// has failed.
    pub fn wants_more(&self) -> (more: bool)
        ensures
            more == self.failed() is None,
    {
        self.failure.is_none()
    }

    /// Takes one outcome. A fetched source is added behind those already
    /// taken; a failure is recorded and ends the load. After a failure every
    /// further outcome is ignored. Returns whether the load goes on.
    pub fn accept(&mut self, outcome: FetchOutcome) -> (more: bool)
        ensures
            more == final(self).failed() is None,
            old(self).failed() is Some ==> final(self).failed() == old(self).failed()
                && final(self).loaded() == old(self).loaded(),
            old(self).failed() is None && outcome is Loaded ==> final(self).failed() is None
                && final(self).loaded() == old(self).loaded().push(
                (outcome->file@, outcome->code@),
            ),
            old(self).failed() is None && !(outcome is Loaded) ==> final(self).failed()
                == outcome.failure() && final(self).loaded() == old(self).loaded(),
    {
        if self.failure.is_some() {
            return false;
        }
        let error = outcome.error();
        match outcome {
            FetchOutcome::Loaded { file, code } => {
                self.sources.insert(Source::new(file, code));
                true
            },
            _ => {
                self.failure = error;
                false
            },
        }
    }

    /// Ends the load: the sources taken, or the failure that ended it.
    pub fn finish(self) -> (loaded: Result<SourceUserInfo, SourceInfoError>)
        ensures
            self.failed() is None ==> loaded is Ok && loaded->Ok_0@ == self.loaded(),
            self.failed() is Some ==> loaded == Err::<SourceUserInfo, SourceInfoError>(
                self.failed()->0,
            ),
    {
        match self.failure {
            Some(error) => Err(error),
            None => Ok(self.sources),
        }
    }
}

/// A load in which some fetch failed yields no sources at all: whatever the
/// outcomes before and after the first failure, the result is that failure.
pub proof fn lemma_one_failure_fails_the_load(outcomes: Seq<FetchOutcome>, k: int)
    requires
        0 <= k < outcomes.len(),
        !(outcomes[k] is Loaded),
    ensures
        exists|first: int| 0 <= first <= k && fails_first_at(outcomes, first),
    decreases k,
{
    if all_loaded(outcomes, k) {
        assert(fails_first_at(outcomes, k));
    } else {
        let j = choose|j: int| 0 <= j < k && !((#[trigger] outcomes[j]) is Loaded);
        lemma_one_failure_fails_the_load(outcomes, j);
    }
}

} // verus!
