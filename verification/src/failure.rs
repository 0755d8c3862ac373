//! Discovery failures and their causal chains, and the test that tells a
//! deliberate rejection from every other failure.

use vstd::prelude::*;

verus! {

/// The gRPC status code by which the discovery service declines a request.
pub const INVALID_ARGUMENT: i32 = 3;

/// What one link of a failure chain is.
#[derive(Clone, Copy, Debug, PartialEq, Eq, Structural)]
pub enum FailureKind {
    /// Discovery was declined locally, by configuration.
    Rejected,
    /// The discovery service answered with a gRPC status; the field is its
    /// numeric code.
    Status(i32),
    /// The first profile did not arrive within the configured time.
    Timeout,
    /// Any other fault: transport, I/O, an internal error.
    Other,
}

/// A failure together with the failure that caused it, if any.
#[derive(Debug, PartialEq, Eq)]
pub struct Failure {
    pub kind: FailureKind,
    pub source: Option<Box<Failure>>,
}

/// Calls `tonic::Code::from_i32` and tells whether the code it names is
/// `tonic::Code::InvalidArgument`. Trusted: the crate maps the integer 3, and
/// no other, to that variant.
#[verifier::external_body]
fn tonic_is_invalid_argument(code: i32) -> (r: bool)
    ensures
        r == (code == INVALID_ARGUMENT),
{
    matches!(tonic::Code::from_i32(code), tonic::Code::InvalidArgument)
}

impl FailureKind {
    /// A status that carries the "invalid argument" code.
    pub open spec fn spec_is_invalid_argument(self) -> bool {
        self == FailureKind::Status(INVALID_ARGUMENT)
    }

    /// A deliberate rejection: declined locally, or declined by the service
    /// with "invalid argument".
    pub open spec fn spec_is_rejection(self) -> bool {
        self == FailureKind::Rejected || self.spec_is_invalid_argument()
    }

    pub fn is_invalid_argument(&self) -> (r: bool)
        ensures
            r == self.spec_is_invalid_argument(),
    {
        match self {
            FailureKind::Status(code) => tonic_is_invalid_argument(*code),
            _ => false,
        }
    }

    pub fn is_rejection(&self) -> (r: bool)
        ensures
            r == self.spec_is_rejection(),
    {
        match self {
            FailureKind::Rejected => true,
            _ => self.is_invalid_argument(),
        }
    }
}

impl Failure {
    /// The kinds along the chain: this failure first, then its cause, then
    /// the cause of that, to the root.
    pub open spec fn chain(self) -> Seq<FailureKind>
        decreases self,
    {
        match self.source {
            None => seq![self.kind],
            Some(cause) => seq![self.kind] + cause.chain(),
        }
    }

    /// Some failure of the chain carries an "invalid argument" status.
    pub open spec fn carries_invalid_argument(self) -> bool {
        exists|i: int|
            0 <= i < self.chain().len() && (#[trigger] self.chain()[i]).spec_is_invalid_argument()
    }

    /// Some failure of the chain is a deliberate rejection.
    pub open spec fn is_rejection(self) -> bool {
        exists|i: int|
            0 <= i < self.chain().len() && (#[trigger] self.chain()[i]).spec_is_rejection()
    }

    /// A failure with no cause.
    pub fn new(kind: FailureKind) -> (f: Failure)
        ensures
            f.kind == kind,
            f.source is None,
            f.chain() == seq![kind],
    {
        Failure { kind, source: None }
    }

    /// A failure of the given kind caused by `cause`.
    pub fn caused_by(kind: FailureKind, cause: Failure) -> (f: Failure)
        ensures
            f.kind == kind,
            f.source == Some(Box::new(cause)),
            f.chain() == seq![kind] + cause.chain(),
    {
        Failure { kind, source: Some(Box::new(cause)) }
    }

    /// The kinds along the chain, this failure first.
    pub fn kinds(&self) -> (v: Vec<FailureKind>)
        ensures
            v@ == self.chain(),
    {
        let mut v: Vec<FailureKind> = Vec::new();
        v.push(self.kind);
        let mut cur: &Failure = self;
        loop
            invariant
                self.chain() == v@.drop_last() + cur.chain(),
                v@.len() >= 1,
                v@.last() == cur.kind,
            ensures
                v@ == self.chain(),
            decreases cur,
        {
            match &cur.source {
                None => {
                    assert(v@ =~= v@.drop_last() + seq![cur.kind]);
                    break ;
                },
                Some(cause) => {
                    let ghost before = v@;
                    v.push(cause.kind);
                    assert(v@.drop_last() =~= before);
                    assert(before =~= before.drop_last() + seq![cur.kind]);
                    assert(self.chain() =~= v@.drop_last() + cause.chain()) by {
                        assert(cur.chain() == seq![cur.kind] + cause.chain());
                    }
                    cur = &**cause;
                },
            }
        }
        v
    }

    /// Walks the chain for an "invalid argument" status.
    pub fn has_invalid_argument(&self) -> (r: bool)
        ensures
            r == self.carries_invalid_argument(),
        decreases *self,
    {
        if self.kind.is_invalid_argument() {
            assert(self.chain()[0] == self.kind);
            return true;
        }
        match &self.source {
            None => {
                false
            },
            Some(cause) => {
                let r = cause.has_invalid_argument();
                proof {
                    lemma_chain_exists_step(*self, |k: FailureKind| k.spec_is_invalid_argument());
                }
                r
            },
        }
    }
}

/// A property holds somewhere on a chain exactly when it holds of the head
/// or somewhere on the cause's chain.
pub proof fn lemma_chain_exists_step(f: Failure, p: spec_fn(FailureKind) -> bool)
    ensures
        f.chain().len() >= 1,
        f.chain()[0] == f.kind,
        (exists|i: int| 0 <= i < f.chain().len() && p(#[trigger] f.chain()[i])) <==> (p(f.kind) || (
        f.source matches Some(cause) && exists|i: int|
            0 <= i < cause.chain().len() && p(#[trigger] cause.chain()[i]))),
{
    match f.source {
        None => {},
        Some(cause) => {
            let c = cause.chain();
            let s = f.chain();
            assert(s == seq![f.kind] + c);
            if exists|i: int| 0 <= i < s.len() && p(#[trigger] s[i]) {
                let i = choose|i: int| 0 <= i < s.len() && p(#[trigger] s[i]);
                if i > 0 {
                    assert(s[i] == c[i - 1]);
                    assert(p(c[i - 1]));
                }
            }
            if exists|i: int| 0 <= i < c.len() && p(#[trigger] c[i]) {
                let i = choose|i: int| 0 <= i < c.len() && p(#[trigger] c[i]);
                assert(s[i + 1] == c[i]);
                assert(p(s[i + 1]));
            }
        },
    }
}

/// Marks a discovery that was declined on purpose, by configuration or by
/// the discovery service.
#[derive(Clone, Copy, Debug, PartialEq, Eq, Structural)]
pub struct Rejected;

impl Rejected {
    /// Whether `err`, or any failure it was caused by, is a deliberate
    /// rejection.
    pub fn matches(err: &Failure) -> (r: bool)
        ensures
            r == err.is_rejection(),
        decreases *err,
    {
        if err.kind.is_rejection() {
            assert(err.chain()[0] == err.kind);
            return true;
        }
        match &err.source {
            None => {
                false
            },
            Some(cause) => {
                let r = Rejected::matches(cause);
                proof {
                    lemma_chain_exists_step(*err, |k: FailureKind| k.spec_is_rejection());
                }
                r
            },
        }
    }

    /// How this rejection reads in a log.
    pub fn to_string(&self) -> (s: String)
        ensures
            s@ == "rejected discovery"@,
    {
        "rejected discovery".to_owned()
    }

    /// The failure that reports this rejection: a chain of its own, with no
    /// cause.
    pub fn into_failure(self) -> (f: Failure)
        ensures
            f.chain() == seq![FailureKind::Rejected],
            f.is_rejection(),
    {
        let f = Failure::new(FailureKind::Rejected);
        assert(f.chain()[0].spec_is_rejection());
        f
    }
}

} // verus!
