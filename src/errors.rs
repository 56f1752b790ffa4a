//! Error kinds, errors, and rule violations.

use vstd::prelude::*;

verus! {

/// The kinds of failure the linter distinguishes.
#[derive(Debug, Clone, Copy, PartialEq, Eq, Structural)]
pub enum GenericErrorKind {
    ParseError,
    NotFound,
    InvalidFormat,
    RuleCheckFailed,
    InvalidPath,
    InvalidDescriptorSyntax,
    Other,
}

/// The display text of an error kind.
pub open spec fn kind_text(kind: GenericErrorKind) -> Seq<char> {
    match kind {
        GenericErrorKind::ParseError => "Parser Error"@,
        GenericErrorKind::NotFound => "Not Found"@,
        GenericErrorKind::InvalidFormat => "Invalid Format"@,
        GenericErrorKind::RuleCheckFailed => "Rule Check Failed"@,
        GenericErrorKind::InvalidPath => "Invalid Path"@,
        GenericErrorKind::InvalidDescriptorSyntax => "Invalid Descriptor Syntax"@,
        GenericErrorKind::Other => "Other"@,
    }
}

impl GenericErrorKind {
    /// The text under which this kind is reported.
    pub fn name(&self) -> (r: &'static str)
        ensures
            r@ == kind_text(*self),
    {
        match self {
            GenericErrorKind::ParseError => "Parser Error",
            GenericErrorKind::NotFound => "Not Found",
            GenericErrorKind::InvalidFormat => "Invalid Format",
            GenericErrorKind::RuleCheckFailed => "Rule Check Failed",
            GenericErrorKind::InvalidPath => "Invalid Path",
            GenericErrorKind::InvalidDescriptorSyntax => "Invalid Descriptor Syntax",
            GenericErrorKind::Other => "Other",
        }
    }
}

/// A failure of some operation: its kind and a human-readable trace.
#[derive(Debug, Clone)]
pub struct IError {
    kind: GenericErrorKind,
    message: String,
}

impl IError {
    pub closed spec fn spec_kind(&self) -> GenericErrorKind {
        self.kind
    }

    pub closed spec fn spec_message(&self) -> Seq<char> {
        self.message@
    }

    pub fn new(kind: GenericErrorKind, message: String) -> (r: Self)
        ensures
            r.spec_kind() == kind,
            r.spec_message() == message@,
    {
        Self { kind, message }
    }

    pub fn kind(&self) -> (r: GenericErrorKind)
        ensures
            r == self.spec_kind(),
    {
        self.kind
    }

    pub fn message(&self) -> (r: &String)
        ensures
            r@ == self.spec_message(),
    {
        &self.message
    }

    /// `error: <kind>, trace: <message>`
    pub fn to_string(&self) -> (r: String)
        ensures
            r@ == "error: "@ + kind_text(self.spec_kind()) + ", trace: "@ + self.spec_message(),
    {
        let mut s = String::from_str("error: ");
        s.append(self.kind.name());
        s.append(", trace: ");
        s.append(self.message.as_str());
        s
    }
}

/// What a `Fail` holds, as mathematical values.
pub struct FailView {
    pub method: Seq<char>,
    pub message: Seq<char>,
    pub kind: GenericErrorKind,
}

/// One violation of a rule, attributed to a method.
#[derive(Debug, Clone)]
pub struct Fail {
    method: String,
    message: String,
    kind: GenericErrorKind,
}

impl View for Fail {
    type V = FailView;

    closed spec fn view(&self) -> FailView {
        FailView { method: self.method@, message: self.message@, kind: self.kind }
    }
}

impl Fail {
    pub fn new(method: String, message: String, kind: GenericErrorKind) -> (r: Self)
        ensures
            r@ == (FailView { method: method@, message: message@, kind }),
    {
        Self { method, message, kind }
    }

    pub fn method(&self) -> (r: &String)
        ensures
            r@ == self@.method,
    {
        &self.method
    }

    pub fn message(&self) -> (r: &String)
        ensures
            r@ == self@.message,
    {
        &self.message
    }

    pub fn kind(&self) -> (r: GenericErrorKind)
        ensures
            r == self@.kind,
    {
        self.kind
    }

    /// `(method: <name>) - error: <kind>, trace: <message>`
    pub fn to_string(&self) -> (r: String)
        ensures
            r@ == fail_text(self@),
    {
        let mut s = String::from_str("(method: ");
        s.append(self.method.as_str());
        s.append(") - error: ");
        s.append(self.kind.name());
        s.append(", trace: ");
        s.append(self.message.as_str());
        s
    }
}

/// The report text of one violation.
pub open spec fn fail_text(f: FailView) -> Seq<char> {
    "(method: "@ + f.method + ") - error: "@ + kind_text(f.kind) + ", trace: "@ + f.message
}

} // verus!
