//! The exclusive workspace lock: an advisory lock keyed by a lock-file
//! path. A holder records its process id in the file; acquisition claims
//! the file with an atomic create-or-fail step, reclaims it when the
//! recorded owner is no longer alive, and fails with contention when the
//! owner still runs. The filesystem steps run in the unverified host; this
//! module decides, for every outcome the host reports, what to do next.

use vstd::prelude::*;

use crate::hash::hex_digit;
use crate::text::trim_end_spec;

verus! {

/// True for a decimal digit character.
pub open spec fn is_digit(c: char) -> bool {
    '0' <= c && c <= '9'
}

/// The numeric value of a decimal digit character.
pub open spec fn digit_val(c: char) -> int {
    c as int - 48
}

/// True when every character of the string is a decimal digit.
pub open spec fn all_digits(s: Seq<char>) -> bool {
    forall|i: int| 0 <= i < s.len() ==> is_digit(s[i])
}

/// The numeric value of a decimal digit string.
pub open spec fn dec_value(s: Seq<char>) -> int
    decreases s.len(),
{
    if s.len() == 0 {
        0
    } else {
        dec_value(s.drop_last()) * 10 + digit_val(s.last())
    }
}

/// The decimal representation of a number, without leading zeros. A
/// decimal digit is a hexadecimal digit below ten.
pub open spec fn dec_string(n: nat) -> Seq<char>
    decreases n,
{
    if n < 10 {
        seq![hex_digit(n as int)]
    } else {
        dec_string(n / 10).push(hex_digit((n % 10) as int))
    }
}

/// Ten to the given power.
pub open spec fn pow10(n: nat) -> int
    decreases n,
{
    if n == 0 {
        1
    } else {
        10 * pow10((n - 1) as nat)
    }
}

/// A digit string's value is below ten to its length.
pub proof fn lemma_dec_value_bound(s: Seq<char>)
    requires
        all_digits(s),
    ensures
        0 <= dec_value(s) < pow10(s.len()),
    decreases s.len(),
{
    if s.len() > 0 {
        assert(all_digits(s.drop_last()));
        lemma_dec_value_bound(s.drop_last());
        assert(is_digit(s.last()));
        assert(0 <= digit_val(s.last()) < 10);
        assert(dec_value(s.drop_last()) * 10 + digit_val(s.last()) < pow10(s.len())) by {
            let p = pow10(s.drop_last().len());
            assert(pow10(s.len()) == 10 * p);
            assert(dec_value(s.drop_last()) <= p - 1);
            assert(dec_value(s.drop_last()) * 10 <= (p - 1) * 10) by (nonlinear_arith)
                requires
                    dec_value(s.drop_last()) <= p - 1,
            ;
        }
    }
}

proof fn lemma_pow10_10()
    ensures
        pow10(10) == 10000000000,
{
    reveal_with_fuel(pow10, 12);
}

/// Ten to a power never shrinks as the power grows.
proof fn lemma_pow10_mono(a: nat, b: nat)
    requires
        a <= b,
    ensures
        pow10(a) <= pow10(b),
    decreases b,
{
    if a < b {
        lemma_pow10_mono(a, (b - 1) as nat);
        assert(pow10(b) == 10 * pow10((b - 1) as nat));
        assert(pow10((b - 1) as nat) >= 1) by {
            lemma_pow10_pos((b - 1) as nat);
        }
    }
}

proof fn lemma_pow10_pos(n: nat)
    ensures
        pow10(n) >= 1,
    decreases n,
{
    if n > 0 {
        lemma_pow10_pos((n - 1) as nat);
    }
}

/// What a lock-file text parses to: a process id, provided the text is one
/// to ten digits whose value fits the id type.
pub open spec fn parse_pid_spec(s: Seq<char>) -> Option<u32> {
    if 1 <= s.len() <= 10 && all_digits(s) && dec_value(s) <= u32::MAX as int {
        Some(dec_value(s) as u32)
    } else {
        None
    }
}

fn digit_str(d: u32) -> (r: &'static str)
    requires
        d < 10,
    ensures
        r@ == seq![hex_digit(d as int)],
{
    proof {
        reveal_strlit("0");
        reveal_strlit("1");
        reveal_strlit("2");
        reveal_strlit("3");
        reveal_strlit("4");
        reveal_strlit("5");
        reveal_strlit("6");
        reveal_strlit("7");
        reveal_strlit("8");
        reveal_strlit("9");
    }
    let r = if d == 0 {
        "0"
    } else if d == 1 {
        "1"
    } else if d == 2 {
        "2"
    } else if d == 3 {
        "3"
    } else if d == 4 {
        "4"
    } else if d == 5 {
        "5"
    } else if d == 6 {
        "6"
    } else if d == 7 {
        "7"
    } else if d == 8 {
        "8"
    } else {
        "9"
    };
    proof {
        assert(r@ =~= seq![hex_digit(d as int)]);
    }
    r
}

/// Render a process id as its decimal digit string.
pub fn format_pid(pid: u32) -> (r: String)
    ensures
        r@ == dec_string(pid as nat),
    decreases pid,
{
    if pid < 10 {
        String::from_str(digit_str(pid))
    } else {
        let mut s = format_pid(pid / 10);
        s.append(digit_str(pid % 10));
        proof {
            assert(s@ =~= dec_string((pid / 10) as nat).push(hex_digit((pid % 10) as int)));
        }
        s
    }
}

/// Parse a decimal digit string back into a process id.
pub fn parse_pid(s: &str) -> (r: Option<u32>)
    ensures
        r == parse_pid_spec(s@),
{
    let len = s.unicode_len();
    if len < 1 || len > 10 {
        return None;
    }
    let mut acc: u64 = 0;
    let mut i: usize = 0;
    proof {
        assert(s@.subrange(0, 0) =~= Seq::<char>::empty());
    }
    while i < len
        invariant
            i <= len,
            1 <= len <= 10,
            len == s@.len(),
            all_digits(s@.subrange(0, i as int)),
            acc == dec_value(s@.subrange(0, i as int)),
        decreases len - i,
    {
        let c = s.get_char(i);
        if c < '0' || c > '9' {
            assert(!is_digit(s@[i as int]));
            return None;
        }
        let d: u64 = (c as u64) - 48;
        proof {
            assert(is_digit(s@[i as int]));
            assert(d == digit_val(s@[i as int]));
            assert(d < 10);
            let pre = s@.subrange(0, i as int);
            let nxt = s@.subrange(0, i as int + 1);
            assert(nxt.drop_last() =~= pre);
            assert(nxt.last() == s@[i as int]);
            lemma_dec_value_bound(pre);
            lemma_pow10_mono(i as nat, 9);
            reveal_with_fuel(pow10, 11);
            assert(acc < 1000000000);
        }
        acc = acc * 10 + d;
        i += 1;
    }
    proof {
        assert(s@.subrange(0, len as int) =~= s@);
        lemma_dec_value_bound(s@);
        lemma_pow10_mono(len as nat, 10);
        lemma_pow10_10();
    }
    if acc > 0xffffffff {
        assert(dec_value(s@) > u32::MAX as int);
        None
    } else {
        Some(acc as u32)
    }
}

/// A rendered process id is all digits.
pub proof fn lemma_dec_string_digits(n: nat)
    ensures
        all_digits(dec_string(n)),
    decreases n,
{
    if n < 10 {
        assert(is_digit(hex_digit(n as int)));
        assert(forall|i: int|
            0 <= i < dec_string(n).len() ==> is_digit(dec_string(n)[i]));
    } else {
        lemma_dec_string_digits(n / 10);
        let pre = dec_string(n / 10);
        let whole = pre.push(hex_digit((n % 10) as int));
        assert(is_digit(hex_digit((n % 10) as int)));
        assert(forall|i: int| 0 <= i < whole.len() ==> is_digit(whole[i]));
    }
}

/// A rendered number below ten to the k-th power takes at most k digits.
pub proof fn lemma_dec_string_len(n: nat, k: nat)
    requires
        k >= 1,
        n < pow10(k),
    ensures
        1 <= dec_string(n).len() <= k,
    decreases n,
{
    if n >= 10 {
        assert(k >= 2) by {
            reveal_with_fuel(pow10, 3);
            if k == 1 {
                assert(n < 10);
            }
        }
        assert(n / 10 < pow10((k - 1) as nat)) by {
            assert(pow10(k) == 10 * pow10((k - 1) as nat));
            assert(n < 10 * pow10((k - 1) as nat));
        }
        lemma_dec_string_len(n / 10, (k - 1) as nat);
    }
}

/// Rendering and parsing are inverse: the value of a rendered number is the
/// number itself.
pub proof fn lemma_dec_value_of_dec_string(n: nat)
    ensures
        dec_value(dec_string(n)) == n,
    decreases n,
{
    if n < 10 {
        let s = seq![hex_digit(n as int)];
        assert(dec_string(n) == s);
        assert(s.drop_last() =~= Seq::<char>::empty());
        assert(dec_value(Seq::<char>::empty()) == 0);
        assert(s.last() == hex_digit(n as int));
        assert(dec_value(s) == dec_value(s.drop_last()) * 10 + digit_val(s.last()));
        assert(digit_val(hex_digit(n as int)) == n);
    } else {
        lemma_dec_value_of_dec_string(n / 10);
        let pre = dec_string(n / 10);
        let whole = pre.push(hex_digit((n % 10) as int));
        assert(whole.drop_last() =~= pre);
        assert(whole.last() == hex_digit((n % 10) as int));
        assert(digit_val(hex_digit((n % 10) as int)) == n % 10);
        assert(dec_value(whole) == (n / 10) * 10 + n % 10);
        assert((n / 10) * 10 + n % 10 == n) by (nonlinear_arith);
    }
}

/// A process id written to a lock file is read back unchanged: parsing the
/// rendered id yields exactly the id.
pub proof fn lemma_pid_round_trip(pid: u32)
    ensures
        parse_pid_spec(dec_string(pid as nat)) == Some(pid),
{
    lemma_dec_string_digits(pid as nat);
    lemma_pow10_10();
    lemma_dec_string_len(pid as nat, 10);
    lemma_dec_value_of_dec_string(pid as nat);
}

/// Where lock acquisition stands: which filesystem answer it waits for, or
/// how it ended.
#[derive(Debug, Clone, Copy, PartialEq, Eq)]
pub enum LockPhase {
    /// The first atomic create-or-fail attempt is outstanding.
    AwaitCreate,
    /// The lock file existed; its contents are being read.
    AwaitRead,
    /// The recorded owner's liveness check is outstanding.
    AwaitAlive,
    /// The stale lock file's removal is outstanding.
    AwaitRemove,
    /// The second create-or-fail attempt, after reclamation, is outstanding.
    AwaitRecreate,
    /// The lock is held by this process.
    Held,
    /// A live owner holds the lock; acquisition failed.
    Contended,
    /// The host answered out of protocol; acquisition failed.
    Error,
}

/// The next filesystem step the host must perform.
#[derive(Debug)]
pub enum LockAction {
    /// Atomically create the file at the path with the given contents,
    /// failing if it already exists.
    CreateExclusive(String, String),
    /// Read the file's contents, if it still exists.
    ReadFile(String),
    /// Report whether the process with this id is alive.
    CheckAlive(u32),
    /// Remove the file at the path.
    RemoveFile(String),
}

/// What the host reports back for the corresponding action.
#[derive(Debug)]
pub enum LockEvent {
    Created(bool),
    ReadResult(Option<String>),
    Alive(bool),
    Removed(bool),
}

/// The specification-level value of a `LockAction`.
pub enum LockActionView {
    CreateExclusive(Seq<char>, Seq<char>),
    ReadFile(Seq<char>),
    CheckAlive(u32),
    RemoveFile(Seq<char>),
}

impl View for LockAction {
    type V = LockActionView;

    open spec fn view(&self) -> LockActionView {
        match self {
            LockAction::CreateExclusive(p, c) => LockActionView::CreateExclusive(p@, c@),
            LockAction::ReadFile(p) => LockActionView::ReadFile(p@),
            LockAction::CheckAlive(pid) => LockActionView::CheckAlive(*pid),
            LockAction::RemoveFile(p) => LockActionView::RemoveFile(p@),
        }
    }
}

/// The specification-level value of a `LockEvent`.
pub enum LockEventView {
    Created(bool),
    ReadResult(Option<Seq<char>>),
    Alive(bool),
    Removed(bool),
}

impl View for LockEvent {
    type V = LockEventView;

    open spec fn view(&self) -> LockEventView {
        match self {
            LockEvent::Created(b) => LockEventView::Created(*b),
            LockEvent::ReadResult(o) => LockEventView::ReadResult(o.deep_view()),
            LockEvent::Alive(b) => LockEventView::Alive(*b),
            LockEvent::Removed(b) => LockEventView::Removed(*b),
        }
    }
}

/// The acquisition machine for one lock file.
#[derive(Debug)]
pub struct PidLock {
    pub path: String,
    pub pid: u32,
    pub phase: LockPhase,
    pub owner: Option<u32>,
}

/// The specification-level value of a `PidLock`.
pub struct PidLockView {
    pub path: Seq<char>,
    pub pid: u32,
    pub phase: LockPhase,
    pub owner: Option<u32>,
}

impl View for PidLock {
    type V = PidLockView;

    open spec fn view(&self) -> PidLockView {
        PidLockView { path: self.path@, pid: self.pid, phase: self.phase, owner: self.owner }
    }
}

/// The transition relation of lock acquisition: for the machine's view and
/// an answer from the host, the machine's next view and the next action, if
/// any. Acquisition holds the lock exactly when an atomic create-or-fail
/// step succeeded; an existing file is reclaimed only after its recorded
/// owner was found dead (or its contents did not parse) and the file was
/// removed, and even then the lock is claimed by a fresh atomic create, so
/// a race lost at that point ends in contention, never in two holders.
pub open spec fn lock_transition(v: PidLockView, e: LockEventView) -> (PidLockView, Option<
    LockActionView,
>) {
    match (v.phase, e) {
        (LockPhase::AwaitCreate, LockEventView::Created(true)) => (
            PidLockView { phase: LockPhase::Held, ..v },
            None,
        ),
        (LockPhase::AwaitCreate, LockEventView::Created(false)) => (
            PidLockView { phase: LockPhase::AwaitRead, ..v },
            Some(LockActionView::ReadFile(v.path)),
        ),
        (LockPhase::AwaitRead, LockEventView::ReadResult(None)) => (
            PidLockView { phase: LockPhase::AwaitRecreate, ..v },
            Some(LockActionView::CreateExclusive(v.path, dec_string(v.pid as nat))),
        ),
        (LockPhase::AwaitRead, LockEventView::ReadResult(Some(t))) => {
            match parse_pid_spec(trim_end_spec(t)) {
                Some(p) => (
                    PidLockView { phase: LockPhase::AwaitAlive, owner: Some(p), ..v },
                    Some(LockActionView::CheckAlive(p)),
                ),
                None => (
                    PidLockView { phase: LockPhase::AwaitRemove, ..v },
                    Some(LockActionView::RemoveFile(v.path)),
                ),
            }
        },
        (LockPhase::AwaitAlive, LockEventView::Alive(true)) => (
            PidLockView { phase: LockPhase::Contended, ..v },
            None,
        ),
        (LockPhase::AwaitAlive, LockEventView::Alive(false)) => (
            PidLockView { phase: LockPhase::AwaitRemove, ..v },
            Some(LockActionView::RemoveFile(v.path)),
        ),
        (LockPhase::AwaitRemove, LockEventView::Removed(_)) => (
            PidLockView { phase: LockPhase::AwaitRecreate, ..v },
            Some(LockActionView::CreateExclusive(v.path, dec_string(v.pid as nat))),
        ),
        (LockPhase::AwaitRecreate, LockEventView::Created(true)) => (
            PidLockView { phase: LockPhase::Held, ..v },
            None,
        ),
        (LockPhase::AwaitRecreate, LockEventView::Created(false)) => (
            PidLockView { phase: LockPhase::Contended, ..v },
            None,
        ),
        _ => (PidLockView { phase: LockPhase::Error, ..v }, None),
    }
}

impl PidLock {
    /// Begin acquiring the lock at `path` for the process `pid`: the first
    /// step is an atomic create-or-fail of the lock file with the id
    /// recorded in it.
    pub fn acquire_start(path: String, pid: u32) -> (r: (PidLock, LockAction))
        ensures
            r.0@ == (PidLockView { path: path@, pid, phase: LockPhase::AwaitCreate, owner: None }),
            r.1@ == LockActionView::CreateExclusive(path@, dec_string(pid as nat)),
    {
        let contents = format_pid(pid);
        let action = LockAction::CreateExclusive(path.clone(), contents);
        let lock = PidLock { path, pid, phase: LockPhase::AwaitCreate, owner: None };
        (lock, action)
    }

    /// Advance the machine on the host's answer, handing back the next
    /// filesystem step when one is needed.
    pub fn step(&mut self, e: LockEvent) -> (r: Option<LockAction>)
        ensures
            (final(self)@, match r {
                Some(a) => Some(a@),
                None => None,
            }) == lock_transition(old(self)@, e@),
    {
        match (self.phase, e) {
            (LockPhase::AwaitCreate, LockEvent::Created(true)) => {
                self.phase = LockPhase::Held;
                None
            },
            (LockPhase::AwaitCreate, LockEvent::Created(false)) => {
                self.phase = LockPhase::AwaitRead;
                Some(LockAction::ReadFile(self.path.clone()))
            },
            (LockPhase::AwaitRead, LockEvent::ReadResult(None)) => {
                self.phase = LockPhase::AwaitRecreate;
                Some(LockAction::CreateExclusive(self.path.clone(), format_pid(self.pid)))
            },
            (LockPhase::AwaitRead, LockEvent::ReadResult(Some(t))) => {
                let trimmed = crate::text::trim_end(t.as_str());
                match parse_pid(trimmed.as_str()) {
                    Some(p) => {
                        self.phase = LockPhase::AwaitAlive;
                        self.owner = Some(p);
                        Some(LockAction::CheckAlive(p))
                    },
                    None => {
                        self.phase = LockPhase::AwaitRemove;
                        Some(LockAction::RemoveFile(self.path.clone()))
                    },
                }
            },
            (LockPhase::AwaitAlive, LockEvent::Alive(true)) => {
                self.phase = LockPhase::Contended;
                None
            },
            (LockPhase::AwaitAlive, LockEvent::Alive(false)) => {
                self.phase = LockPhase::AwaitRemove;
                Some(LockAction::RemoveFile(self.path.clone()))
            },
            (LockPhase::AwaitRemove, LockEvent::Removed(_)) => {
                self.phase = LockPhase::AwaitRecreate;
                Some(LockAction::CreateExclusive(self.path.clone(), format_pid(self.pid)))
            },
            (LockPhase::AwaitRecreate, LockEvent::Created(true)) => {
                self.phase = LockPhase::Held;
                None
            },
            (LockPhase::AwaitRecreate, LockEvent::Created(false)) => {
                self.phase = LockPhase::Contended;
                None
            },
            _ => {
                self.phase = LockPhase::Error;
                None
            },
        }
    }

    /// Whether the machine holds the lock.
    pub fn is_held(&self) -> (b: bool)
        ensures
            b == (self@.phase == LockPhase::Held),
    {
        match self.phase {
            LockPhase::Held => true,
            _ => false,
        }
    }

    /// Whether acquisition failed because a live owner holds the lock.
    pub fn is_contended(&self) -> (b: bool)
        ensures
            b == (self@.phase == LockPhase::Contended),
    {
        match self.phase {
            LockPhase::Contended => true,
            _ => false,
        }
    }
}

/// The machine's view after consuming a sequence of host answers.
pub open spec fn lock_run(v: PidLockView, es: Seq<LockEventView>) -> PidLockView
    decreases es.len(),
{
    if es.len() == 0 {
        v
    } else {
        lock_run(lock_transition(v, es[0]).0, es.drop_first())
    }
}

/// The lock is held only on the strength of a successful atomic
/// create-or-fail: a run that ends holding the lock received a creation
/// grant from the filesystem at some step.
pub proof fn lemma_held_needs_grant(v: PidLockView, es: Seq<LockEventView>)
    requires
        v.phase != LockPhase::Held,
        lock_run(v, es).phase == LockPhase::Held,
    ensures
        exists|i: int| 0 <= i < es.len() && es[i] == LockEventView::Created(true),
    decreases es.len(),
{
    if es.len() > 0 {
        let (v2, _) = lock_transition(v, es[0]);
        if v2.phase == LockPhase::Held {
            assert(es[0] == LockEventView::Created(true));
        } else {
            lemma_held_needs_grant(v2, es.drop_first());
            let j = choose|j: int|
                0 <= j < es.drop_first().len() && es.drop_first()[j] == LockEventView::Created(
                    true,
                );
            assert(es[j + 1] == LockEventView::Created(true));
        }
    }
}

proof fn lemma_no_grant_never_held(v: PidLockView, es: Seq<LockEventView>)
    requires
        v.phase != LockPhase::Held,
        forall|i: int| 0 <= i < es.len() ==> es[i] != LockEventView::Created(true),
    ensures
        lock_run(v, es).phase != LockPhase::Held,
    decreases es.len(),
{
    if es.len() > 0 {
        let (v2, _) = lock_transition(v, es[0]);
        assert(v2.phase != LockPhase::Held);
        assert(forall|i: int|
            0 <= i < es.drop_first().len() ==> es.drop_first()[i] != LockEventView::Created(
                true,
            ));
        lemma_no_grant_never_held(v2, es.drop_first());
    }
}

/// Mutual exclusion: the filesystem's create-or-fail step grants success to
/// at most one process while the lock file exists. Under that guarantee —
/// here the premise that at most one of two acquisition runs ever received
/// a creation grant — two invocations against the same lock file never both
/// end up holding it.
pub proof fn lemma_mutual_exclusion(
    v1: PidLockView,
    es1: Seq<LockEventView>,
    v2: PidLockView,
    es2: Seq<LockEventView>,
)
    requires
        v1.phase == LockPhase::AwaitCreate,
        v2.phase == LockPhase::AwaitCreate,
        (forall|i: int| 0 <= i < es1.len() ==> es1[i] != LockEventView::Created(true)) || (
        forall|i: int| 0 <= i < es2.len() ==> es2[i] != LockEventView::Created(true)),
    ensures
        !(lock_run(v1, es1).phase == LockPhase::Held && lock_run(v2, es2).phase
            == LockPhase::Held),
{
    if forall|i: int| 0 <= i < es1.len() ==> es1[i] != LockEventView::Created(true) {
        lemma_no_grant_never_held(v1, es1);
    } else {
        lemma_no_grant_never_held(v2, es2);
    }
}

/// Stale-lock reclamation: when the lock file exists but its recorded owner
/// is no longer alive, acquisition removes the file, claims the lock with a
/// fresh atomic create, and succeeds.
pub proof fn lemma_stale_lock_reclaimed(
    v: PidLockView,
    t: Seq<char>,
    removed: bool,
)
    requires
        v.phase == LockPhase::AwaitCreate,
        parse_pid_spec(trim_end_spec(t)) is Some,
    ensures
        lock_run(
            v,
            seq![
                LockEventView::Created(false),
                LockEventView::ReadResult(Some(t)),
                LockEventView::Alive(false),
                LockEventView::Removed(removed),
                LockEventView::Created(true),
            ],
        ).phase == LockPhase::Held,
{
    let es = seq![
        LockEventView::Created(false),
        LockEventView::ReadResult(Some(t)),
        LockEventView::Alive(false),
        LockEventView::Removed(removed),
        LockEventView::Created(true),
    ];
    reveal_with_fuel(lock_run, 6);
    assert(es.drop_first() =~= seq![
        LockEventView::ReadResult(Some(t)),
        LockEventView::Alive(false),
        LockEventView::Removed(removed),
        LockEventView::Created(true),
    ]);
    assert(es.drop_first().drop_first() =~= seq![
        LockEventView::Alive(false),
        LockEventView::Removed(removed),
        LockEventView::Created(true),
    ]);
    assert(es.drop_first().drop_first().drop_first() =~= seq![
        LockEventView::Removed(removed),
        LockEventView::Created(true),
    ]);
    assert(es.drop_first().drop_first().drop_first().drop_first() =~= seq![
        LockEventView::Created(true),
    ]);
    assert(es.drop_first().drop_first().drop_first().drop_first().drop_first()
        =~= Seq::<LockEventView>::empty());
}

/// Contention: when the lock file exists and its recorded owner is still
/// alive, acquisition fails with the contention outcome.
pub proof fn lemma_live_lock_contended(v: PidLockView, t: Seq<char>)
    requires
        v.phase == LockPhase::AwaitCreate,
        parse_pid_spec(trim_end_spec(t)) is Some,
    ensures
        lock_run(
            v,
            seq![
                LockEventView::Created(false),
                LockEventView::ReadResult(Some(t)),
                LockEventView::Alive(true),
            ],
        ).phase == LockPhase::Contended,
{
    let es = seq![
        LockEventView::Created(false),
        LockEventView::ReadResult(Some(t)),
        LockEventView::Alive(true),
    ];
    reveal_with_fuel(lock_run, 4);
    assert(es.drop_first() =~= seq![
        LockEventView::ReadResult(Some(t)),
        LockEventView::Alive(true),
    ]);
    assert(es.drop_first().drop_first() =~= seq![LockEventView::Alive(true)]);
    assert(es.drop_first().drop_first().drop_first() =~= Seq::<LockEventView>::empty());
}

} // verus!
