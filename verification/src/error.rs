//! What can go wrong while finding, measuring or removing environments.

use vstd::prelude::*;

verus! {

/// The message of a path that is not there.
pub const MISSING_DIRECTORY: &'static str = "Directory does not exist";

/// The message of a path that is something other than a directory.
pub const NOT_A_DIRECTORY: &'static str = "Path is not a directory";

/// The reasons an operation can fail.
#[derive(Debug)]
pub enum VenvCleanerError {
    /// An input/output failure, with the system's description.
    Io(String),
    /// A path that cannot be used, and why.
    PathError { path: String, message: String },
    /// A directory that may not be removed.
    PermissionDenied { path: String },
    /// A mode of operation that this build does not offer.
    FeatureNotAvailable(String),
    /// A value that makes no sense where it was given.
    InvalidArgument(String),
    /// The user declined to go on.
    OperationCancelled,
    /// A search that matched nothing and met no failure.
    NoVenvFound,
    /// Several failures of one operation.
    MultipleErrors(Vec<VenvCleanerError>),
}

/// The descriptions of the first `n` of `errors`, separated by commas.
pub open spec fn listing(errors: Seq<VenvCleanerError>, n: int) -> Seq<char>
    decreases errors, n,
{
    if n <= 0 || n > errors.len() {
        Seq::empty()
    } else if n == 1 {
        errors[0].description()
    } else {
        listing(errors, n - 1) + ", "@ + errors[n - 1].description()
    }
}

impl Clone for VenvCleanerError {
    /// A copy of the error. Every kind but a list of errors is copied part
    /// for part; a list is copied error by error.
    fn clone(&self) -> (copy: Self)
        ensures
            !(self is MultipleErrors) ==> copy == *self,
            self is MultipleErrors ==> copy is MultipleErrors,
        decreases self,
    {
        match self {
            VenvCleanerError::Io(detail) => VenvCleanerError::Io(detail.clone()),
            VenvCleanerError::PathError { path, message } => VenvCleanerError::PathError {
                path: path.clone(),
                message: message.clone(),
            },
            VenvCleanerError::PermissionDenied { path } => VenvCleanerError::PermissionDenied {
                path: path.clone(),
            },
            VenvCleanerError::FeatureNotAvailable(feature) => VenvCleanerError::FeatureNotAvailable(
                feature.clone(),
            ),
            VenvCleanerError::InvalidArgument(detail) => VenvCleanerError::InvalidArgument(
                detail.clone(),
            ),
            VenvCleanerError::OperationCancelled => VenvCleanerError::OperationCancelled,
            VenvCleanerError::NoVenvFound => VenvCleanerError::NoVenvFound,
            VenvCleanerError::MultipleErrors(errors) => {
                let mut copies: Vec<VenvCleanerError> = Vec::new();
                let mut i: usize = 0;
                while i < errors.len()
                    invariant
                        i <= errors.len(),
                        *self == VenvCleanerError::MultipleErrors(*errors),
                    decreases errors.len() - i,
                {
                    proof {
                        assert(decreases_to!(*self => self->MultipleErrors_0));
                        assert(decreases_to!(*errors => errors[i as int]));
                    }
                    copies.push(errors[i].clone());
                    i = i + 1;
                }
                VenvCleanerError::MultipleErrors(copies)
            },
        }
    }
}

impl VenvCleanerError {
    /// The fixed words that open the description of each kind of error.
    pub open spec fn prefix(self) -> Seq<char> {
        match self {
            VenvCleanerError::Io(_) => "IO error: "@,
            VenvCleanerError::PathError { .. } => "Path error: "@,
            VenvCleanerError::PermissionDenied { .. } => "Permission denied: "@,
            VenvCleanerError::FeatureNotAvailable(_) => "Feature not available: "@,
            VenvCleanerError::InvalidArgument(_) => "Invalid argument: "@,
            VenvCleanerError::OperationCancelled => "Operation cancelled by user"@,
            VenvCleanerError::NoVenvFound => "No .venv folders found in the specified directory"@,
            VenvCleanerError::MultipleErrors(_) => "Multiple errors occurred: "@,
        }
    }

    /// The error as a line for the user: the words for its kind, followed by
    /// what the error carries. A list of errors carries the descriptions of
    /// its errors, in square brackets.
    pub open spec fn description(self) -> Seq<char>
        decreases self, 0int,
    {
        match self {
            VenvCleanerError::Io(detail) => self.prefix() + detail@,
            VenvCleanerError::PathError { path, message } => self.prefix() + path@ + " - "@
                + message@,
            VenvCleanerError::PermissionDenied { path } => self.prefix() + path@,
            VenvCleanerError::FeatureNotAvailable(feature) => self.prefix() + feature@,
            VenvCleanerError::InvalidArgument(detail) => self.prefix() + detail@,
            VenvCleanerError::OperationCancelled => self.prefix(),
            VenvCleanerError::NoVenvFound => self.prefix(),
            VenvCleanerError::MultipleErrors(errors) => self.prefix() + "["@ + listing(
                errors@,
                errors@.len() as int,
            ) + "]"@,
        }
    }

    /// The error as a line for the user.
    pub fn to_string(&self) -> (text: String)
        ensures
            text@ == self.description(),
        decreases self,
    {
        match self {
            VenvCleanerError::Io(detail) => String::from_str("IO error: ").concat(detail.as_str()),
            VenvCleanerError::PathError { path, message } => {
                let text = String::from_str("Path error: ").concat(path.as_str()).concat(
                    " - ",
                ).concat(message.as_str());
                text
            },
            VenvCleanerError::PermissionDenied { path } => String::from_str(
                "Permission denied: ",
            ).concat(path.as_str()),
            VenvCleanerError::FeatureNotAvailable(feature) => String::from_str(
                "Feature not available: ",
            ).concat(feature.as_str()),
            VenvCleanerError::InvalidArgument(detail) => String::from_str(
                "Invalid argument: ",
            ).concat(detail.as_str()),
            VenvCleanerError::OperationCancelled => String::from_str(
                "Operation cancelled by user",
            ),
            VenvCleanerError::NoVenvFound => String::from_str(
                "No .venv folders found in the specified directory",
            ),
            VenvCleanerError::MultipleErrors(errors) => {
                let mut text = String::from_str("Multiple errors occurred: ");
                text.append("[");
                let mut i: usize = 0;
                assert(text@ =~= "Multiple errors occurred: "@ + "["@ + listing(errors@, 0));
                while i < errors.len()
                    invariant
                        i <= errors.len(),
                        *self == VenvCleanerError::MultipleErrors(*errors),
                        text@ == "Multiple errors occurred: "@ + "["@ + listing(errors@, i as int),
                    decreases errors.len() - i,
                {
                    proof {
                        assert(decreases_to!(*self => self->MultipleErrors_0));
                        assert(decreases_to!(*errors => errors[i as int]));
                    }
                    if i > 0 {
                        text.append(", ");
                    }
                    let part = errors[i].to_string();
                    text.append(part.as_str());
                    i = i + 1;
                    assert(text@ =~= "Multiple errors occurred: "@ + "["@ + listing(
                        errors@,
                        i as int,
                    ));
                }
                text.append("]");
                assert(text@ =~= self.description());
                text
            },
        }
    }

    /// The error for a path that does not exist.
    pub fn missing_directory(path: &str) -> (e: VenvCleanerError)
        ensures
            e.is_path_error(path@, MISSING_DIRECTORY@),
    {
        VenvCleanerError::PathError {
            path: String::from_str(path),
            message: String::from_str(MISSING_DIRECTORY),
        }
    }

    /// The error for a path that exists but is no directory.
    pub fn not_a_directory(path: &str) -> (e: VenvCleanerError)
        ensures
            e.is_path_error(path@, NOT_A_DIRECTORY@),
    {
        VenvCleanerError::PathError {
            path: String::from_str(path),
            message: String::from_str(NOT_A_DIRECTORY),
        }
    }

    /// True of a `PathError` with the given path and message.
    pub open spec fn is_path_error(self, path: Seq<char>, message: Seq<char>) -> bool {
        self matches VenvCleanerError::PathError { path: p, message: m } && p@ == path && m@
            == message
    }

    /// True of a `PermissionDenied` for the given path.
    pub open spec fn is_permission_denied(self, path: Seq<char>) -> bool {
        self matches VenvCleanerError::PermissionDenied { path: p } && p@ == path
    }

    /// True of an `Io` error with the given detail.
    pub open spec fn is_io(self, detail: Seq<char>) -> bool {
        self matches VenvCleanerError::Io(d) && d@ == detail
    }
}

} // verus!
