//! Unified error taxonomy shared by the loader, the cache and validation.

use vstd::prelude::*;

verus! {

/// A single structural rule violation, located by a dotted field path.
#[derive(Clone, Debug)]
pub struct Violation {
    /// Dotted path of the offending field, such as `states[0].end`.
    pub path: String,
    /// Human-readable description of the violation.
    pub message: String,
}

impl View for Violation {
    type V = (Seq<char>, Seq<char>);

    open spec fn view(&self) -> (Seq<char>, Seq<char>) {
        (self.path@, self.message@)
    }
}

/// Aggregated validation report: every violation found in one document.
#[derive(Clone, Debug)]
pub struct Report {
    /// All violations, in the order they were found.
    pub entries: Vec<Violation>,
}

impl View for Report {
    type V = Seq<(Seq<char>, Seq<char>)>;

    open spec fn view(&self) -> Seq<(Seq<char>, Seq<char>)> {
        Seq::new(self.entries@.len(), |i: int| self.entries@[i]@)
    }
}

impl Report {
    /// Creates an empty report.
    pub fn new() -> (r: Report)
        ensures
            r@ == Seq::<(Seq<char>, Seq<char>)>::empty(),
    {
        let r = Report { entries: Vec::new() };
        proof {
            assert(r@ =~= Seq::<(Seq<char>, Seq<char>)>::empty());
        }
        r
    }

    /// Appends one violation at the given path.
    pub fn push(&mut self, path: String, message: String)
        ensures
            final(self)@ == old(self)@ + seq![(path@, message@)],
    {
        let ghost pre = self@;
        self.entries.push(Violation { path, message });
        proof {
            assert(self@ =~= pre + seq![(self.entries@.last().path@, self.entries@.last().message@)]);
        }
    }

    /// Number of violations collected so far.
    pub fn len(&self) -> (n: usize)
        ensures
            n == self@.len(),
    {
        self.entries.len()
    }
}

/// Error type used throughout this crate.
#[derive(Clone, Debug)]
pub enum Error {
    /// A workflow identifier was requested but the definition has none.
    MissingIdentifier,
    /// A string was supposed to contain an integer but did not parse as one.
    InvalidInt {
        /// The text that failed to parse.
        text: String,
    },
    /// One or more validation rule violations occurred.
    ValidationFailed {
        /// The aggregated set of violations.
        report: Report,
    },
    /// A URI string could not be parsed.
    InvalidUrl {
        /// The text that failed to parse as a URI.
        text: String,
    },
    /// A `file://` URI could not be turned into a local filesystem path.
    InvalidPathInFileUri {
        /// The offending `file://` URI.
        file_uri: String,
    },
    /// The URI scheme is not registered with the loader.
    UnsupportedUriScheme {
        /// The literal scheme string.
        scheme: String,
    },
    /// The file extension selects no registered wire format.
    UnsupportedFileFormat {
        /// The literal extension (empty if the path has none).
        file_ext: String,
    },
    /// Decoding JSON bytes failed.
    JsonConversionFailed {
        /// The underlying decoder's message.
        message: String,
    },
    /// Decoding YAML bytes failed.
    YamlConversionFailed {
        /// The underlying decoder's message.
        message: String,
    },
    /// Reading the resource's bytes failed.
    FileIo {
        /// The underlying I/O message.
        message: String,
    },
    /// A cached document for this URI has a different type than requested.
    InvalidCachedObjectType {
        /// The type of document the caller asked for.
        expected_type: String,
        /// The type of document actually stored.
        actual_type: String,
    },
    /// The operation needs a capability that is switched off.
    FeatureDisabled {
        /// The capability the operation needs.
        required_feature: String,
    },
}

/// Result type used in this crate, with the crate's [`Error`] type.
pub type Result<T> = core::result::Result<T, Error>;

/// A value that can never be constructed.
///
/// Used to mark conversions that are statically known not to fail: an
/// error of this type can never exist, so the "no error" case is a real
/// absence, not a convention. The type invariant is `false`, so no code
/// can ever establish it and no value of this type can ever be made.
pub struct Impossible {
    no_value: (),
}

impl Impossible {
    #[verifier::type_invariant]
    spec fn uninhabited(self) -> bool {
        false
    }
}

/// Fallible adaptation of a value into `Self`, where `None` means the
/// conversion provably never produces a value.
pub trait OptFrom<T>: Sized {
    /// Converts `value`, or returns `None` when no error can arise.
    fn opt_from(value: T) -> Option<Self>;
}

/// The reverse-direction companion of [`OptFrom`].
pub trait IntoOpt<U>: Sized {
    /// Converts `self`, or returns `None` when no error can arise.
    fn into_opt(self) -> Option<U>;
}

impl<T, U: OptFrom<T>> IntoOpt<U> for T {
    fn into_opt(self) -> Option<U> {
        U::opt_from(self)
    }
}

impl OptFrom<Impossible> for Error {
    fn opt_from(value: Impossible) -> (r: Option<Error>) {
        proof {
            use_type_invariant(&value);
        }
        vstd::pervasive::unreached()
    }
}

} // verus!
