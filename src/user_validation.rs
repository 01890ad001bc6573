use vstd::prelude::*;

use crate::types::{
    Ctap2Error, Options, Passkey, PasskeyView, PublicKeyCredentialRpEntity,
    PublicKeyCredentialUserEntity, RpEntityView, UserEntityView,
};

verus! {

/// The kind of a [`UIHint`], without the data it points at.
#[derive(Clone, Copy, PartialEq, Eq, Structural, Debug)]
pub enum HintKind {
    InformExcludedCredentialFound,
    InformNoCredentialsFound,
    RequestNewCredential,
    RequestExistingCredential,
}

/// Additional information that can be displayed to the user if the authenticator has a display.
pub enum UIHint<'a, P> {
    /// Inform the user that the operation cannot be completed because the user already has a credential registered.
    InformExcludedCredentialFound(&'a P),
    /// Inform the user that the operation cannot be completed because the user has no matching credentials registered.
    InformNoCredentialsFound,
    /// Request permission to save the credential in this object.
    RequestNewCredential(
        &'a PublicKeyCredentialUserEntity,
        &'a PublicKeyCredentialRpEntity,
        &'a Options,
    ),
    /// Request permission to use the existing credential in this object.
    RequestExistingCredential(&'a P),
}

impl<'a, P> UIHint<'a, P> {
    pub open spec fn kind_spec(&self) -> HintKind {
        match self {
            UIHint::InformExcludedCredentialFound(_) => HintKind::InformExcludedCredentialFound,
            UIHint::InformNoCredentialsFound => HintKind::InformNoCredentialsFound,
            UIHint::RequestNewCredential(_, _, _) => HintKind::RequestNewCredential,
            UIHint::RequestExistingCredential(_) => HintKind::RequestExistingCredential,
        }
    }

    /// The kind of this hint.
    pub fn kind(&self) -> (r: HintKind)
        ensures
            r == self.kind_spec(),
    {
        match self {
            UIHint::InformExcludedCredentialFound(_) => HintKind::InformExcludedCredentialFound,
            UIHint::InformNoCredentialsFound => HintKind::InformNoCredentialsFound,
            UIHint::RequestNewCredential(_, _, _) => HintKind::RequestNewCredential,
            UIHint::RequestExistingCredential(_) => HintKind::RequestExistingCredential,
        }
    }
}

/// The result of a user validation check.
#[derive(Clone, Copy, PartialEq, Eq, Structural, Debug)]
pub struct UserCheck {
    /// Indicates whether the user was present.
    pub presence: bool,
    /// Indicates whether the user was verified.
    pub verification: bool,
}

impl UserCheck {
    pub open spec fn satisfies_spec(&self, presence: bool, verification: bool) -> bool {
        (!presence || self.presence) && (!verification || self.verification)
    }

    /// Whether this check gathered every gesture that was requested.
    pub fn satisfies(&self, presence: bool, verification: bool) -> (r: bool)
        ensures
            r == self.satisfies_spec(presence, verification),
    {
        (!presence || self.presence) && (!verification || self.verification)
    }
}

/// How the authenticator asks the host for user presence and verification.
///
/// `checks` is the sequence of `check_user` calls so far: the hint shown, the
/// gestures asked for and the answer given. The authenticator's contracts speak
/// of it to say which prompts a command raises and what it makes of the answer.
pub trait UserValidationMethod {
    spec fn checks(&self) -> Seq<CheckRecord>;

    /// The answer `check_user` gives to this hint and these gestures after the
    /// calls `past`, where it is fixed in advance (a scripted method); `None` where
    /// the user decides.
    spec fn answer_after(&self, past: Seq<CheckRecord>, hint: MockUIHintView, presence: bool, verification: bool) -> Option<
        Result<UserCheck, Ctap2Error>,
    >;

    /// What `is_presence_enabled` reports.
    spec fn presence_enabled(&self) -> bool;

    /// What `is_verification_enabled` reports.
    spec fn verification_enabled(&self) -> Option<bool>;

    /// Check for the user's presence and obtain consent for the operation. The operation may
    /// also require the user to be verified.
    fn check_user(
        &mut self,
        hint: UIHint<'_, Passkey>,
        presence: bool,
        verification: bool,
    ) -> (r: Result<UserCheck, Ctap2Error>)
        ensures
            final(self).checks() == old(self).checks().push(
                CheckRecord { hint: hint_view(hint), presence, verification, answer: r },
            ),
            final(self).verification_enabled() == old(self).verification_enabled(),
            final(self).presence_enabled() == old(self).presence_enabled(),
            old(self).answer_after(old(self).checks(), hint_view(hint), presence, verification) matches Some(
                a,
            ) ==> r == a,
            forall|past: Seq<CheckRecord>, h: MockUIHintView, p: bool, v: bool|
                #[trigger] final(self).answer_after(past, h, p, v) == old(self).answer_after(past, h, p, v),
    ;

    /// Indicates whether this type is capable of testing user presence.
    fn is_presence_enabled(&self) -> (r: bool)
        ensures
            r == self.presence_enabled(),
    ;

    /// `Some(true)`: capable of user verification and configured; `Some(false)`: capable
    /// but not yet configured; `None`: not capable of user verification.
    fn is_verification_enabled(&self) -> (r: Option<bool>)
        ensures
            r == self.verification_enabled(),
    ;
}

/// Both methods give the same scripted answers after the same calls.
pub open spec fn same_script<U: UserValidationMethod>(a: U, b: U) -> bool {
    forall|past: Seq<CheckRecord>, h: MockUIHintView, p: bool, v: bool|
        #[trigger] a.answer_after(past, h, p, v) == b.answer_after(past, h, p, v)
}

/// The number of calls in `s` that were answered `Ok`.
pub open spec fn count_ok(s: Seq<CheckRecord>) -> int
    decreases s.len(),
{
    if s.len() == 0 {
        0
    } else {
        count_ok(s.drop_last()) + if s.last().answer is Ok {
            1int
        } else {
            0
        }
    }
}

/// One call of `check_user`: the hint shown, the gestures asked for, the answer.
pub struct CheckRecord {
    pub hint: MockUIHintView,
    pub presence: bool,
    pub verification: bool,
    pub answer: Result<UserCheck, Ctap2Error>,
}

/// `new` is `old` with one more call of `check_user`, showing `hint` and asking
/// for `presence` and `verification`.
pub open spec fn one_more_check(
    old: Seq<CheckRecord>,
    new: Seq<CheckRecord>,
    hint: MockUIHintView,
    presence: bool,
    verification: bool,
) -> bool {
    &&& new.len() == old.len() + 1
    &&& new.drop_last() == old
    &&& new.last().hint == hint
    &&& new.last().presence == presence
    &&& new.last().verification == verification
}

/// The values a hint carries.
pub open spec fn hint_view(h: UIHint<'_, Passkey>) -> MockUIHintView {
    match h {
        UIHint::InformExcludedCredentialFound(p) => MockUIHintView::InformExcludedCredentialFound(p@),
        UIHint::InformNoCredentialsFound => MockUIHintView::InformNoCredentialsFound,
        UIHint::RequestNewCredential(u, rp, o) => MockUIHintView::RequestNewCredential(u@, rp@, *o),
        UIHint::RequestExistingCredential(p) => MockUIHintView::RequestExistingCredential(p@),
    }
}

/// An owned version of [`UIHint`] over [`Passkey`], used to state which hint a
/// [`MockUserValidationMethod`] expects.
#[derive(Debug)]
pub enum MockUIHint {
    InformExcludedCredentialFound(Passkey),
    InformNoCredentialsFound,
    RequestNewCredential(PublicKeyCredentialUserEntity, PublicKeyCredentialRpEntity, Options),
    RequestExistingCredential(Passkey),
}

pub enum MockUIHintView {
    InformExcludedCredentialFound(PasskeyView),
    InformNoCredentialsFound,
    RequestNewCredential(UserEntityView, RpEntityView, Options),
    RequestExistingCredential(PasskeyView),
}

impl View for MockUIHint {
    type V = MockUIHintView;

    open spec fn view(&self) -> MockUIHintView {
        match self {
            MockUIHint::InformExcludedCredentialFound(p) => MockUIHintView::InformExcludedCredentialFound(p@),
            MockUIHint::InformNoCredentialsFound => MockUIHintView::InformNoCredentialsFound,
            MockUIHint::RequestNewCredential(u, rp, o) => MockUIHintView::RequestNewCredential(u@, rp@, *o),
            MockUIHint::RequestExistingCredential(p) => MockUIHintView::RequestExistingCredential(p@),
        }
    }
}

/// Whether `actual` is the hint that `expected` describes.
pub open spec fn hint_matches(expected: MockUIHintView, actual: UIHint<'_, Passkey>) -> bool {
    match (expected, actual) {
        (MockUIHintView::InformExcludedCredentialFound(p), UIHint::InformExcludedCredentialFound(q)) => p == q@,
        (MockUIHintView::InformNoCredentialsFound, UIHint::InformNoCredentialsFound) => true,
        (MockUIHintView::RequestNewCredential(u, rp, o), UIHint::RequestNewCredential(u2, rp2, o2)) =>
            u == u2@ && rp == rp2@ && o == *o2,
        (MockUIHintView::RequestExistingCredential(p), UIHint::RequestExistingCredential(q)) => p == q@,
        _ => false,
    }
}

impl MockUIHint {
    /// Whether `actual` is the hint this one describes.
    pub fn matches(&self, actual: &UIHint<'_, Passkey>) -> (r: bool)
        ensures
            r == hint_matches(self@, *actual),
    {
        match (self, actual) {
            (MockUIHint::InformExcludedCredentialFound(p), UIHint::InformExcludedCredentialFound(q)) => p.same_as(q),
            (MockUIHint::InformNoCredentialsFound, UIHint::InformNoCredentialsFound) => true,
            (MockUIHint::RequestNewCredential(u, rp, o), UIHint::RequestNewCredential(u2, rp2, o2)) =>
                u.same_as(u2) && rp.same_as(rp2) && *o == **o2,
            (MockUIHint::RequestExistingCredential(p), UIHint::RequestExistingCredential(q)) => p.same_as(q),
            _ => false,
        }
    }
}

/// A scripted [`UserValidationMethod`] for tests: it answers the first `times`
/// expected `check_user` calls with a fixed outcome, every other call with
/// `OperationDenied`, and records each call.
pub struct MockUserValidationMethod {
    verification_enabled: Option<bool>,
    presence_enabled: bool,
    expected_presence: Option<bool>,
    expected_verification: Option<bool>,
    expected_hint: Option<MockUIHint>,
    outcome: UserCheck,
    times: usize,
    used: usize,
    shown: Vec<HintKind>,
    log: Ghost<Seq<CheckRecord>>,
}

impl MockUserValidationMethod {
    /// Whether a call showing `hint` and asking for these gestures matches what the
    /// mock expects, budget aside.
    pub closed spec fn expects_view(&self, hint: MockUIHintView, presence: bool, verification: bool) -> bool {
        &&& (self.expected_presence matches Some(p) ==> p == presence)
        &&& (self.expected_verification matches Some(v) ==> v == verification)
        &&& (self.expected_hint matches Some(h) ==> h@ == hint)
    }

    /// The kinds of the hints shown so far, in order.
    pub closed spec fn shown_kinds(&self) -> Seq<HintKind> {
        self.shown@
    }

    fn make(
        verification_enabled: Option<bool>,
        presence_enabled: bool,
        expected_presence: Option<bool>,
        expected_verification: Option<bool>,
        expected_hint: Option<MockUIHint>,
        outcome: UserCheck,
        times: usize,
    ) -> (r: Self)
        ensures
            r.verification_enabled() == verification_enabled,
            r.presence_enabled() == presence_enabled,
            r.shown_kinds() == Seq::<HintKind>::empty(),
            r.checks() == Seq::<CheckRecord>::empty(),
            forall|past: Seq<CheckRecord>, h: MockUIHintView, p: bool, v: bool| #[trigger] r.answer_after(past, h, p, v) == Some(
                if count_ok(past) < times && (expected_presence matches Some(ep) ==> ep == p) && (
                expected_verification matches Some(ev) ==> ev == v) && (expected_hint matches Some(
                    eh,
                ) ==> eh@ == h) {
                    Ok::<UserCheck, Ctap2Error>(outcome)
                } else {
                    Err(Ctap2Error::OperationDenied)
                },
            ),
    {
        let r = MockUserValidationMethod {
            verification_enabled,
            presence_enabled,
            expected_presence,
            expected_verification,
            expected_hint,
            outcome,
            times,
            used: 0,
            shown: Vec::new(),
            log: Ghost(Seq::empty()),
        };
        assert(r.shown@ =~= Seq::<HintKind>::empty());
        r
    }

    /// A mock that reports `verification_enabled` and `presence_enabled`, and answers
    /// the first `times` calls of `check_user`, whatever their arguments, with `outcome`.
    pub fn with_outcome(
        verification_enabled: Option<bool>,
        presence_enabled: bool,
        outcome: UserCheck,
        times: usize,
    ) -> (r: Self)
        ensures
            r.verification_enabled() == verification_enabled,
            r.presence_enabled() == presence_enabled,
            r.shown_kinds() == Seq::<HintKind>::empty(),
            r.checks() == Seq::<CheckRecord>::empty(),
            forall|past: Seq<CheckRecord>, h: MockUIHintView, p: bool, v: bool| #[trigger] r.answer_after(past, h, p, v) == Some(
                if count_ok(past) < times {
                    Ok::<UserCheck, Ctap2Error>(outcome)
                } else {
                    Err(Ctap2Error::OperationDenied)
                },
            ),
    {
        Self::make(verification_enabled, presence_enabled, None, None, None, outcome, times)
    }

    /// Sets up the mock for returning true for the verification.
    pub fn verified_user(times: usize) -> (r: Self)
        ensures
            r.verification_enabled() == Some(true),
            r.presence_enabled(),
            r.shown_kinds() == Seq::<HintKind>::empty(),
            r.checks() == Seq::<CheckRecord>::empty(),
            forall|past: Seq<CheckRecord>, h: MockUIHintView, p: bool, v: bool| #[trigger] r.answer_after(past, h, p, v) == Some(
                if count_ok(past) < times && p && v {
                    Ok::<UserCheck, Ctap2Error>(UserCheck { presence: true, verification: true })
                } else {
                    Err(Ctap2Error::OperationDenied)
                },
            ),
    {
        Self::make(
            Some(true),
            true,
            Some(true),
            Some(true),
            None,
            UserCheck { presence: true, verification: true },
            times,
        )
    }

    /// Sets up the mock for returning true for the verification, only for calls that
    /// carry the expected hint.
    pub fn verified_user_with_hint(times: usize, expected_hint: MockUIHint) -> (r: Self)
        ensures
            r.verification_enabled() == Some(true),
            r.presence_enabled(),
            r.shown_kinds() == Seq::<HintKind>::empty(),
            r.checks() == Seq::<CheckRecord>::empty(),
            forall|past: Seq<CheckRecord>, h: MockUIHintView, p: bool, v: bool| #[trigger] r.answer_after(past, h, p, v) == Some(
                if count_ok(past) < times && p && v && expected_hint@ == h {
                    Ok::<UserCheck, Ctap2Error>(UserCheck { presence: true, verification: true })
                } else {
                    Err(Ctap2Error::OperationDenied)
                },
            ),
    {
        let r = Self::make(
            Some(true),
            true,
            Some(true),
            Some(true),
            Some(expected_hint),
            UserCheck { presence: true, verification: true },
            times,
        );
        r
    }

    /// The kinds of the hints shown so far, in order.
    pub fn shown(&self) -> (r: Vec<HintKind>)
        ensures
            r@ == self.shown_kinds(),
    {
        let mut r: Vec<HintKind> = Vec::new();
        let mut i: usize = 0;
        while i < self.shown.len()
            invariant
                i <= self.shown.len(),
                r@ == self.shown@.subrange(0, i as int),
            decreases self.shown.len() - i,
        {
            r.push(self.shown[i]);
            i = i + 1;
        }
        assert(r@ =~= self.shown@);
        r
    }

    fn expects_call(&self, hint: &UIHint<'_, Passkey>, presence: bool, verification: bool) -> (r: bool)
        ensures
            r == self.expects_view(hint_view(*hint), presence, verification),
    {
        let p_ok = match self.expected_presence {
            Some(p) => p == presence,
            None => true,
        };
        let v_ok = match self.expected_verification {
            Some(v) => v == verification,
            None => true,
        };
        let h_ok = match &self.expected_hint {
            Some(h) => h.matches(hint),
            None => true,
        };
        p_ok && v_ok && h_ok
    }
}

impl UserValidationMethod for MockUserValidationMethod {
    closed spec fn checks(&self) -> Seq<CheckRecord> {
        self.log@
    }

    closed spec fn answer_after(&self, past: Seq<CheckRecord>, hint: MockUIHintView, presence: bool, verification: bool) -> Option<
        Result<UserCheck, Ctap2Error>,
    > {
        Some(
            if self.used as int + count_ok(past) - count_ok(self.log@) < self.times as int
                && self.expects_view(hint, presence, verification) {
                Ok(self.outcome)
            } else {
                Err(Ctap2Error::OperationDenied)
            },
        )
    }

    closed spec fn presence_enabled(&self) -> bool {
        self.presence_enabled
    }

    closed spec fn verification_enabled(&self) -> Option<bool> {
        self.verification_enabled
    }

    fn check_user(
        &mut self,
        hint: UIHint<'_, Passkey>,
        presence: bool,
        verification: bool,
    ) -> (r: Result<UserCheck, Ctap2Error>) {
        let ok = self.used < self.times && self.expects_call(&hint, presence, verification);
        let k = hint.kind();
        self.shown.push(k);
        let r = if ok {
            self.used = self.used + 1;
            Ok(self.outcome)
        } else {
            Err(Ctap2Error::OperationDenied)
        };
        let ghost rec = CheckRecord { hint: hint_view(hint), presence, verification, answer: r };
        self.log = Ghost(self.log@.push(rec));
        proof {
            assert(self.log@.drop_last() =~= old(self).log@);
        }
        r
    }

    fn is_presence_enabled(&self) -> (r: bool) {
        self.presence_enabled
    }

    fn is_verification_enabled(&self) -> (r: Option<bool>) {
        self.verification_enabled
    }
}

} // verus!
