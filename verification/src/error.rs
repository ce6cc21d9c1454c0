//! Error types: the structured projection of a framework error, and the
//! library's own error enum with its display text.

use vstd::prelude::*;

use crate::text::{int_text, push_int, push_str, string_of};
use crate::vm::{state_name, VmState};

verus! {

/// Structured projection of an Apple `NSError`: domain, code, the localized
/// description, the optional failure reason and recovery suggestion, and the
/// chain of underlying errors.
#[derive(Debug, PartialEq, Eq)]
pub struct FrameworkError {
    /// `NSError.domain` — Apple's category (e.g. `"VZErrorDomain"`).
    pub domain: String,
    /// `NSError.code` — integer specific to the domain.
    pub code: i64,
    /// `NSError.localizedDescription`. Always present.
    pub localized_description: String,
    /// `NSError.localizedFailureReason`.
    pub failure_reason: Option<String>,
    /// `NSError.localizedRecoverySuggestion`.
    pub recovery_suggestion: Option<String>,
    /// `NSError.underlyingErrors` — the cause chain.
    pub underlying: Vec<FrameworkError>,
}

/// The first line of a framework error's text: the description, then the
/// reason and suggestion when present, then `[domain:code]`.
pub open spec fn framework_head(e: FrameworkError) -> Seq<char> {
    let reason = match e.failure_reason {
        Some(r) => " (reason: "@ + r@ + ")"@,
        None => Seq::<char>::empty(),
    };
    let suggestion = match e.recovery_suggestion {
        Some(s) => " (suggestion: "@ + s@ + ")"@,
        None => Seq::<char>::empty(),
    };
    e.localized_description@ + reason + suggestion + " ["@ + e.domain@ + ":"@ + int_text(
        e.code as int,
    ) + "]"@
}

/// The full display text of a framework error: its head, then one
/// `"\n  caused by: "` line per underlying error, each rendered in full.
pub open spec fn framework_text(e: FrameworkError) -> Seq<char>
    decreases e, e.underlying@.len() + 1,
{
    framework_head(e) + causes_text(e, e.underlying@.len())
}

/// The cause lines for the first `n` underlying errors of `e`.
pub open spec fn causes_text(e: FrameworkError, n: nat) -> Seq<char>
    decreases e, n,
{
    if n == 0 || n > e.underlying@.len() {
        Seq::<char>::empty()
    } else {
        proof {
            assert(decreases_to!(e => e.underlying));
            assert(decreases_to!(e.underlying => e.underlying@));
            assert(decreases_to!(e.underlying@ => e.underlying@[n - 1]));
        }
        causes_text(e, (n - 1) as nat) + "\n  caused by: "@ + framework_text(
            e.underlying@[n - 1],
        )
    }
}

fn push_framework_text(buf: &mut Vec<char>, e: &FrameworkError)
    ensures
        final(buf)@ == old(buf)@ + framework_text(*e),
    decreases *e,
{
    let ghost start = buf@;
    push_str(buf, e.localized_description.as_str());
    match &e.failure_reason {
        Some(r) => {
            push_str(buf, " (reason: ");
            push_str(buf, r.as_str());
            push_str(buf, ")");
        },
        None => {},
    }
    match &e.recovery_suggestion {
        Some(s) => {
            push_str(buf, " (suggestion: ");
            push_str(buf, s.as_str());
            push_str(buf, ")");
        },
        None => {},
    }
    push_str(buf, " [");
    push_str(buf, e.domain.as_str());
    push_str(buf, ":");
    push_int(buf, e.code);
    push_str(buf, "]");
    assert(buf@ =~= start + framework_head(*e));
    let n = e.underlying.len();
    let mut i: usize = 0;
    while i < n
        invariant
            i <= n,
            n == e.underlying@.len(),
            buf@ == start + framework_head(*e) + causes_text(*e, i as nat),
        decreases n - i,
    {
        proof {
            assert(decreases_to!(*e => e.underlying));
            assert(decreases_to!(e.underlying => e.underlying@));
            assert(decreases_to!(e.underlying@ => e.underlying@[i as int]));
        }
        push_str(buf, "\n  caused by: ");
        push_framework_text(buf, &e.underlying[i]);
        assert(causes_text(*e, (i + 1) as nat) == causes_text(*e, i as nat) + "\n  caused by: "@
            + framework_text(e.underlying@[i as int]));
        assert(buf@ =~= start + framework_head(*e) + causes_text(*e, (i + 1) as nat));
        i = i + 1;
    }
    assert(buf@ =~= old(buf)@ + framework_text(*e));
}

impl FrameworkError {
    /// The display text: one line per layer, underlying errors indented
    /// under `"\n  caused by: "`.
    pub fn to_string(&self) -> (r: String)
        ensures
            r@ == framework_text(*self),
    {
        let mut buf: Vec<char> = Vec::new();
        push_framework_text(&mut buf, self);
        assert(buf@ =~= framework_text(*self));
        string_of(&buf)
    }
}

/// The content of a framework error, with each string taken by its
/// characters and each underlying error by its own content.
pub struct FrameworkErrorView {
    pub domain: Seq<char>,
    pub code: i64,
    pub localized_description: Seq<char>,
    pub failure_reason: Option<Seq<char>>,
    pub recovery_suggestion: Option<Seq<char>>,
    pub underlying: Seq<FrameworkErrorView>,
}

pub open spec fn opt_chars(o: Option<String>) -> Option<Seq<char>> {
    match o {
        Some(s) => Some(s@),
        None => None,
    }
}

/// The content of `e`.
pub open spec fn framework_view(e: FrameworkError) -> FrameworkErrorView
    decreases e, e.underlying@.len() + 1,
{
    FrameworkErrorView {
        domain: e.domain@,
        code: e.code,
        localized_description: e.localized_description@,
        failure_reason: opt_chars(e.failure_reason),
        recovery_suggestion: opt_chars(e.recovery_suggestion),
        underlying: underlying_views(e, e.underlying@.len()),
    }
}

/// The contents of the first `n` underlying errors of `e`.
pub open spec fn underlying_views(e: FrameworkError, n: nat) -> Seq<FrameworkErrorView>
    decreases e, n,
{
    if n == 0 || n > e.underlying@.len() {
        Seq::empty()
    } else {
        proof {
            assert(decreases_to!(e => e.underlying));
            assert(decreases_to!(e.underlying => e.underlying@));
            assert(decreases_to!(e.underlying@ => e.underlying@[n - 1]));
        }
        underlying_views(e, (n - 1) as nat).push(framework_view(e.underlying@[n - 1]))
    }
}

/// Errors whose underlying errors have, one for one, the same content have
/// the same underlying contents.
pub proof fn lemma_underlying_views_congruent(a: FrameworkError, b: FrameworkError, n: nat)
    requires
        a.underlying@.len() == b.underlying@.len(),
        n <= a.underlying@.len(),
        forall|j: int|
            0 <= j < a.underlying@.len() ==> framework_view(#[trigger] a.underlying@[j])
                == framework_view(b.underlying@[j]),
    ensures
        underlying_views(a, n) == underlying_views(b, n),
    decreases n,
{
    if n > 0 {
        lemma_underlying_views_congruent(a, b, (n - 1) as nat);
        assert(framework_view(a.underlying@[n - 1]) == framework_view(b.underlying@[n - 1]));
    }
}

/// Errors with the same head and, one for one, underlying errors of the same
/// text have the same text.
pub proof fn lemma_causes_text_congruent(a: FrameworkError, b: FrameworkError, n: nat)
    requires
        a.underlying@.len() == b.underlying@.len(),
        n <= a.underlying@.len(),
        forall|j: int|
            0 <= j < a.underlying@.len() ==> framework_text(#[trigger] a.underlying@[j])
                == framework_text(b.underlying@[j]),
    ensures
        causes_text(a, n) == causes_text(b, n),
    decreases n,
{
    if n > 0 {
        lemma_causes_text_congruent(a, b, (n - 1) as nat);
        assert(framework_text(a.underlying@[n - 1]) == framework_text(b.underlying@[n - 1]));
    }
}

fn clone_opt(o: &Option<String>) -> (r: Option<String>)
    ensures
        r == *o,
{
    match o {
        Some(s) => Some(s.clone()),
        None => None,
    }
}

impl Clone for FrameworkError {
    fn clone(&self) -> (r: Self)
        ensures
            r.domain == self.domain,
            r.code == self.code,
            r.localized_description == self.localized_description,
            r.failure_reason == self.failure_reason,
            r.recovery_suggestion == self.recovery_suggestion,
            r.underlying@.len() == self.underlying@.len(),
            framework_view(r) == framework_view(*self),
            framework_text(r) == framework_text(*self),
        decreases self,
    {
        let n = self.underlying.len();
        let mut underlying: Vec<FrameworkError> = Vec::new();
        let mut i: usize = 0;
        while i < n
            invariant
                i <= n,
                n == self.underlying@.len(),
                underlying@.len() == i,
                forall|j: int|
                    0 <= j < i ==> framework_text(#[trigger] underlying@[j]) == framework_text(
                        self.underlying@[j],
                    ),
                forall|j: int|
                    0 <= j < i ==> framework_view(#[trigger] underlying@[j]) == framework_view(
                        self.underlying@[j],
                    ),
            decreases n - i,
        {
            proof {
                assert(decreases_to!(*self => self.underlying));
                assert(decreases_to!(self.underlying => self.underlying@));
                assert(decreases_to!(self.underlying@ => self.underlying@[i as int]));
            }
            let c = self.underlying[i].clone();
            underlying.push(c);
            i = i + 1;
        }
        let r = FrameworkError {
            domain: self.domain.clone(),
            code: self.code,
            localized_description: self.localized_description.clone(),
            failure_reason: clone_opt(&self.failure_reason),
            recovery_suggestion: clone_opt(&self.recovery_suggestion),
            underlying,
        };
        proof {
            lemma_causes_text_congruent(r, *self, n as nat);
            lemma_underlying_views_congruent(r, *self, n as nat);
        }
        r
    }
}

/// Errors that can occur during VM configuration and lifecycle management.
#[derive(Debug)]
pub enum KasouError {
    InvalidConfig(String),
    OperationFailed(String),
    InvalidMac(String),
    DiskNotFound(String),
    BootFilesNotFound(String),
    Framework(String),
    Validation(String),
    InvalidState { current: VmState, expected: &'static str },
    QueueCancelled,
}

/// The content of a `KasouError`, with each string taken by its characters.
pub enum KasouErrorView {
    InvalidConfig(Seq<char>),
    OperationFailed(Seq<char>),
    InvalidMac(Seq<char>),
    DiskNotFound(Seq<char>),
    BootFilesNotFound(Seq<char>),
    Framework(Seq<char>),
    Validation(Seq<char>),
    InvalidState { current: VmState, expected: Seq<char> },
    QueueCancelled,
}

impl View for KasouError {
    type V = KasouErrorView;

    open spec fn view(&self) -> KasouErrorView {
        match self {
            KasouError::InvalidConfig(s) => KasouErrorView::InvalidConfig(s@),
            KasouError::OperationFailed(s) => KasouErrorView::OperationFailed(s@),
            KasouError::InvalidMac(s) => KasouErrorView::InvalidMac(s@),
            KasouError::DiskNotFound(s) => KasouErrorView::DiskNotFound(s@),
            KasouError::BootFilesNotFound(s) => KasouErrorView::BootFilesNotFound(s@),
            KasouError::Framework(s) => KasouErrorView::Framework(s@),
            KasouError::Validation(s) => KasouErrorView::Validation(s@),
            KasouError::InvalidState { current, expected } => KasouErrorView::InvalidState {
                current: *current,
                expected: expected@,
            },
            KasouError::QueueCancelled => KasouErrorView::QueueCancelled,
        }
    }
}

/// The display text of an error.
pub open spec fn error_text(e: KasouErrorView) -> Seq<char> {
    match e {
        KasouErrorView::InvalidConfig(s) => "invalid VM configuration: "@ + s,
        KasouErrorView::OperationFailed(s) => "VM operation failed: "@ + s,
        KasouErrorView::InvalidMac(s) => "invalid MAC address: "@ + s,
        KasouErrorView::DiskNotFound(p) => "disk image not found: "@ + p,
        KasouErrorView::BootFilesNotFound(s) => "boot files not found: "@ + s,
        KasouErrorView::Framework(s) => "Virtualization.framework error: "@ + s,
        KasouErrorView::Validation(s) => "configuration validation failed: "@ + s,
        KasouErrorView::InvalidState { current, expected } => "VM is in state "@ + state_name(
            current,
        ) + ", expected "@ + expected,
        KasouErrorView::QueueCancelled => "dispatch queue operation cancelled"@,
    }
}

impl KasouError {
    /// The display text of the error.
    pub fn to_string(&self) -> (r: String)
        ensures
            r@ == error_text(self@),
    {
        let mut buf: Vec<char> = Vec::new();
        match self {
            KasouError::InvalidConfig(s) => {
                push_str(&mut buf, "invalid VM configuration: ");
                push_str(&mut buf, s.as_str());
            },
            KasouError::OperationFailed(s) => {
                push_str(&mut buf, "VM operation failed: ");
                push_str(&mut buf, s.as_str());
            },
            KasouError::InvalidMac(s) => {
                push_str(&mut buf, "invalid MAC address: ");
                push_str(&mut buf, s.as_str());
            },
            KasouError::DiskNotFound(s) => {
                push_str(&mut buf, "disk image not found: ");
                push_str(&mut buf, s.as_str());
            },
            KasouError::BootFilesNotFound(s) => {
                push_str(&mut buf, "boot files not found: ");
                push_str(&mut buf, s.as_str());
            },
            KasouError::Framework(s) => {
                push_str(&mut buf, "Virtualization.framework error: ");
                push_str(&mut buf, s.as_str());
            },
            KasouError::Validation(s) => {
                push_str(&mut buf, "configuration validation failed: ");
                push_str(&mut buf, s.as_str());
            },
            KasouError::InvalidState { current, expected } => {
                push_str(&mut buf, "VM is in state ");
                push_str(&mut buf, current.name());
                push_str(&mut buf, ", expected ");
                push_str(&mut buf, expected);
            },
            KasouError::QueueCancelled => {
                push_str(&mut buf, "dispatch queue operation cancelled");
            },
        }
        assert(buf@ =~= error_text(self@));
        string_of(&buf)
    }
}

} // verus!
