//! Browser actions: the per-task list of URLs a fired reminder may
//! open, its settings blob, and the result types of URL validation.

use vstd::prelude::*;
use crate::model::{new_uuid, now_rfc3339};

verus! {

/// One URL a fired reminder may open.
#[derive(Debug, PartialEq)]
pub struct BrowserAction {
    pub id: String,
    pub label: String,
    pub url: String,
    pub enabled: bool,
    /// Position in the run order; lower runs first.
    pub order: i32,
    pub created_at: String,
}

impl Clone for BrowserAction {
    /// A copy that keeps every field.
    fn clone(&self) -> (r: BrowserAction)
        ensures
            r == *self,
    {
        BrowserAction {
            id: self.id.clone(),
            label: self.label.clone(),
            url: self.url.clone(),
            enabled: self.enabled,
            order: self.order,
            created_at: self.created_at.clone(),
        }
    }
}

impl BrowserAction {
    /// A fresh, enabled action with a new identifier.
    pub fn new(label: String, url: String, order: i32) -> (a: BrowserAction)
        ensures
            a.id@.len() == 36,
            a.label == label,
            a.url == url,
            a.enabled,
            a.order == order,
    {
        BrowserAction {
            id: new_uuid(),
            label,
            url,
            enabled: true,
            order,
            created_at: now_rfc3339(),
        }
    }
}

/// Most actions one task may carry.
pub const MAX_ACTIONS: usize = 5;

/// Index where a stable insert by `order` places a new action: after
/// every action whose order does not exceed it.
pub open spec fn spec_insert_pos(s: Seq<BrowserAction>, order: int) -> int
    decreases s.len(),
{
    if s.len() == 0 {
        0
    } else if s[0].order <= order {
        1 + spec_insert_pos(s.skip(1), order)
    } else {
        0
    }
}

/// Is the sequence ordered by the actions' `order` field?
pub open spec fn spec_sorted_by_order(s: Seq<BrowserAction>) -> bool {
    forall|i: int, j: int| 0 <= i < j < s.len() ==> #[trigger] s[i].order <= #[trigger] s[j].order
}

/// The browser-action set of one task.
#[derive(Clone, Debug, PartialEq)]
pub struct BrowserActionSettings {
    /// The whole set is consulted only when enabled.
    pub enabled: bool,
    pub actions: Vec<BrowserAction>,
}

impl BrowserActionSettings {
    /// An empty set.
    pub fn new(enabled: bool) -> (r: BrowserActionSettings)
        ensures
            r.enabled == enabled,
            r.actions@ =~= Seq::<BrowserAction>::empty(),
    {
        BrowserActionSettings { enabled, actions: Vec::new() }
    }

    /// Add an action at its place in the run order; a set already at
    /// the cap is left unchanged.  Ties go after the existing actions
    /// of the same order.
    pub fn add_action(&mut self, action: BrowserAction)
        ensures
            old(self).actions@.len() >= MAX_ACTIONS ==> *final(self) == *old(self),
            old(self).actions@.len() < MAX_ACTIONS ==> final(self).enabled == old(self).enabled
                && final(self).actions@ == old(self).actions@.insert(
                spec_insert_pos(old(self).actions@, action.order as int),
                action,
            ),
    {
        if self.actions.len() >= MAX_ACTIONS {
            return ;
        }
        insert_by_order(&mut self.actions, action);
    }

    /// Give the first action carrying the identifier a new order and
    /// move it to its place in the run order; without a match the set
    /// is unchanged.  The moved action goes after the existing actions
    /// of its new order.
    pub fn reorder_actions(&mut self, action_id: &str, new_order: i32)
        ensures
            final(self).enabled == old(self).enabled,
            (match spec_find_by_id(old(self).actions@, action_id@) {
                Some(k) => {
                    let rest = old(self).actions@.remove(k);
                    final(self).actions@ == rest.insert(
                        spec_insert_pos(rest, new_order as int),
                        BrowserAction { order: new_order, ..old(self).actions@[k] },
                    )
                },
                None => *final(self) == *old(self),
            }),
    {
        let n = self.actions.len();
        let mut k: usize = 0;
        proof {
            assert(self.actions@.skip(0) =~= self.actions@);
        }
        while k < n
            invariant
                k <= n,
                n == self.actions@.len(),
                *self == *old(self),
                match spec_find_by_id(self.actions@.skip(k as int), action_id@) {
                    Some(j) => spec_find_by_id(self.actions@, action_id@) == Some(j + k),
                    None => spec_find_by_id(self.actions@, action_id@) is None,
                },
            decreases n - k,
        {
            proof {
                assert(self.actions@.skip(k as int)[0] == self.actions@[k as int]);
                assert(self.actions@.skip(k as int).skip(1) =~= self.actions@.skip(k + 1));
            }
            if crate::strings::str_eq(self.actions[k].id.as_str(), action_id) {
                let mut moved = self.actions.remove(k);
                moved.order = new_order;
                insert_by_order(&mut self.actions, moved);
                return ;
            }
            k = k + 1;
        }
        proof {
            assert(self.actions@.skip(n as int).len() == 0);
        }
    }

    /// Remove every action that carries the identifier.
    pub fn remove_action(&mut self, action_id: &str)
        ensures
            final(self).enabled == old(self).enabled,
            final(self).actions@ == spec_without_id(old(self).actions@, action_id@),
    {
        let n = self.actions.len();
        let mut kept: Vec<BrowserAction> = Vec::new();
        let mut i: usize = 0;
        proof {
            assert(self.actions@.take(0) =~= Seq::<BrowserAction>::empty());
            crate::lemma_filter_empty(|a: BrowserAction| a.id@ != action_id@);
        }
        while i < n
            invariant
                i <= n,
                n == self.actions@.len(),
                *self == *old(self),
                kept@ == spec_without_id(self.actions@.take(i as int), action_id@),
            decreases n - i,
        {
            let a = self.actions[i].clone();
            proof {
                crate::lemma_filter_one_more(
                    self.actions@,
                    i as int,
                    |x: BrowserAction| x.id@ != action_id@,
                );
            }
            if !crate::strings::str_eq(a.id.as_str(), action_id) {
                kept.push(a);
            }
            i = i + 1;
        }
        proof {
            assert(self.actions@.take(n as int) =~= self.actions@);
        }
        self.actions = kept;
    }

    /// The actions a fired reminder will consider: every enabled action
    /// of an enabled set, in list order; an empty list otherwise.
    pub fn get_enabled_actions(&self) -> (r: Vec<BrowserAction>)
        ensures
            r@ == spec_enabled_actions(*self),
    {
        let mut out: Vec<BrowserAction> = Vec::new();
        if !self.enabled {
            return out;
        }
        let n = self.actions.len();
        let mut i: usize = 0;
        proof {
            assert(self.actions@.take(0) =~= Seq::<BrowserAction>::empty());
            crate::lemma_filter_empty(|a: BrowserAction| a.enabled);
        }
        while i < n
            invariant
                i <= n,
                n == self.actions@.len(),
                self.enabled,
                out@ == self.actions@.take(i as int).filter(|a: BrowserAction| a.enabled),
            decreases n - i,
        {
            let a = self.actions[i].clone();
            proof {
                crate::lemma_filter_one_more(self.actions@, i as int, |x: BrowserAction| x.enabled);
            }
            if a.enabled {
                out.push(a);
            }
            i = i + 1;
        }
        proof {
            assert(self.actions@.take(n as int) =~= self.actions@);
        }
        out
    }
}

/// Position of the first action carrying the identifier.
pub open spec fn spec_find_by_id(s: Seq<BrowserAction>, id: Seq<char>) -> Option<int>
    decreases s.len(),
{
    if s.len() == 0 {
        None
    } else if s[0].id@ == id {
        Some(0int)
    } else {
        match spec_find_by_id(s.skip(1), id) {
            Some(k) => Some(k + 1),
            None => None,
        }
    }
}

/// Insert an action after every action whose order does not exceed its
/// own.
fn insert_by_order(v: &mut Vec<BrowserAction>, action: BrowserAction)
    ensures
        final(v)@ == old(v)@.insert(spec_insert_pos(old(v)@, action.order as int), action),
{
    let n = v.len();
    let mut p: usize = 0;
    proof {
        assert(v@.skip(0) =~= v@);
    }
    while p < n && v[p].order <= action.order
        invariant
            p <= n,
            n == v@.len(),
            *v == *old(v),
            spec_insert_pos(v@, action.order as int) == p + spec_insert_pos(
                v@.skip(p as int),
                action.order as int,
            ),
        decreases n - p,
    {
        proof {
            assert(v@.skip(p as int)[0] == v@[p as int]);
            assert(v@.skip(p as int).skip(1) =~= v@.skip(p + 1));
        }
        p = p + 1;
    }
    proof {
        if p < n {
            assert(v@.skip(p as int)[0] == v@[p as int]);
        } else {
            assert(v@.skip(p as int).len() == 0);
        }
    }
    v.insert(p, action);
}

/// The actions of the sequence whose identifier is not `id`.
pub open spec fn spec_without_id(s: Seq<BrowserAction>, id: Seq<char>) -> Seq<BrowserAction> {
    s.filter(|a: BrowserAction| a.id@ != id)
}

/// The stable insert position lies within the sequence.
pub proof fn lemma_insert_pos_bounds(s: Seq<BrowserAction>, o: int)
    ensures
        0 <= spec_insert_pos(s, o) <= s.len(),
    decreases s.len(),
{
    if s.len() > 0 && s[0].order <= o {
        lemma_insert_pos_bounds(s.skip(1), o);
    }
}

/// In an ordered sequence the stable insert position splits it: every
/// action before it has order at most `o`, every action from it on a
/// greater order.
pub proof fn lemma_insert_pos_split(s: Seq<BrowserAction>, o: int)
    requires
        spec_sorted_by_order(s),
    ensures
        forall|i: int| 0 <= i < spec_insert_pos(s, o) ==> #[trigger] s[i].order <= o,
        forall|i: int| spec_insert_pos(s, o) <= i < s.len() ==> #[trigger] s[i].order > o,
    decreases s.len(),
{
    lemma_insert_pos_bounds(s, o);
    if s.len() > 0 {
        let rest = s.skip(1);
        assert(forall|i: int| 0 <= i < rest.len() ==> rest[i] == s[i + 1]);
        let p = spec_insert_pos(s, o);
        if s[0].order <= o {
            assert(spec_sorted_by_order(rest));
            lemma_insert_pos_split(rest, o);
            assert(p == 1 + spec_insert_pos(rest, o));
            assert forall|i: int| 0 <= i < p implies #[trigger] s[i].order <= o by {
                if i > 0 {
                    assert(rest[i - 1].order <= o);
                }
            }
            assert forall|i: int| p <= i < s.len() implies #[trigger] s[i].order > o by {
                assert(rest[i - 1].order > o);
            }
        } else {
            assert(p == 0);
            assert forall|i: int| 0 <= i < s.len() implies #[trigger] s[i].order > o by {
                if i > 0 {
                    assert(s[0].order <= s[i].order);
                }
            }
        }
    }
}

/// Inserting at the stable position keeps the run order sorted, so a
/// set maintained through `add_action` stays ordered.
pub proof fn lemma_add_keeps_order(s: Seq<BrowserAction>, a: BrowserAction)
    requires
        spec_sorted_by_order(s),
    ensures
        spec_sorted_by_order(s.insert(spec_insert_pos(s, a.order as int), a)),
{
    let p = spec_insert_pos(s, a.order as int);
    lemma_insert_pos_bounds(s, a.order as int);
    lemma_insert_pos_split(s, a.order as int);
    let t = s.insert(p, a);
    assert forall|i: int, j: int| 0 <= i < j < t.len() implies #[trigger] t[i].order
        <= #[trigger] t[j].order by {
        assert(forall|k: int| 0 <= k < p ==> t[k] == s[k]);
        assert(t[p] == a);
        assert(forall|k: int| p < k < t.len() ==> t[k] == s[k - 1]);
    }
}

/// The actions an enabled set exposes to the fire path.
pub open spec fn spec_enabled_actions(s: BrowserActionSettings) -> Seq<BrowserAction> {
    if s.enabled {
        s.actions@.filter(|a: BrowserAction| a.enabled)
    } else {
        Seq::empty()
    }
}

/// Why a browser action could not be executed.
#[derive(Clone, Debug, PartialEq)]
pub enum BrowserActionError {
    InvalidUrl(String),
    CommandFailed(String),
    Timeout,
    SecurityViolation(String),
    ServiceUnavailable,
}

impl BrowserActionError {
    /// A readable account of the error.
    pub fn message(&self) -> (r: String)
        ensures
            self matches BrowserActionError::Timeout ==> r@ == "Browser action timed out"@,
            self matches BrowserActionError::ServiceUnavailable ==> r@
                == "Browser service unavailable"@,
            self matches BrowserActionError::InvalidUrl(u) ==> r@ == "Invalid URL: "@ + u@,
            self matches BrowserActionError::CommandFailed(c) ==> r@
                == "Browser command failed: "@ + c@,
            self matches BrowserActionError::SecurityViolation(m) ==> r@
                == "Security violation: "@ + m@,
    {
        match self {
            BrowserActionError::InvalidUrl(u) => String::from_str("Invalid URL: ").concat(
                u.as_str(),
            ),
            BrowserActionError::CommandFailed(c) => String::from_str(
                "Browser command failed: ",
            ).concat(c.as_str()),
            BrowserActionError::Timeout => String::from_str("Browser action timed out"),
            BrowserActionError::SecurityViolation(m) => String::from_str(
                "Security violation: ",
            ).concat(m.as_str()),
            BrowserActionError::ServiceUnavailable => String::from_str(
                "Browser service unavailable",
            ),
        }
    }
}

/// Outcome of validating one URL.
#[derive(Clone, Debug, PartialEq)]
pub struct URLValidationResult {
    pub is_valid: bool,
    /// The normalized scheme, or `"invalid"` on rejection.
    pub protocol: String,
    /// The host, or empty on rejection.
    pub host: String,
    /// The reason of a rejection.
    pub error: Option<String>,
}

impl URLValidationResult {
    /// An accepting outcome carrying scheme and host.
    pub fn valid(protocol: String, host: String) -> (r: URLValidationResult)
        ensures
            r.is_valid,
            r.protocol == protocol,
            r.host == host,
            r.error is None,
    {
        URLValidationResult { is_valid: true, protocol, host, error: None }
    }

    /// A rejecting outcome carrying the reason.
    pub fn invalid(error: String) -> (r: URLValidationResult)
        ensures
            !r.is_valid,
            r.protocol@ == "invalid"@,
            r.host@ == ""@,
            r.error == Some(error),
    {
        proof {
            reveal_strlit("");
        }
        let host = String::new();
        proof {
            assert(host@ =~= ""@);
        }
        URLValidationResult {
            is_valid: false,
            protocol: String::from_str("invalid"),
            host,
            error: Some(error),
        }
    }
}

/// Surface preview of a URL while it is being fetched or after.
#[derive(Clone, Debug, PartialEq)]
pub struct URLPreviewInfo {
    pub title: Option<String>,
    pub favicon: Option<String>,
    pub description: Option<String>,
    /// `"loading"`, `"success"` or `"error"`.
    pub status: String,
}

impl URLPreviewInfo {
    /// A preview still being fetched.
    pub fn loading() -> (r: URLPreviewInfo)
        ensures
            r.title is None,
            r.favicon is None,
            r.description is None,
            r.status@ == "loading"@,
    {
        URLPreviewInfo {
            title: None,
            favicon: None,
            description: None,
            status: String::from_str("loading"),
        }
    }

    /// A fetched preview.
    pub fn success(title: Option<String>, favicon: Option<String>, description: Option<String>)
        -> (r: URLPreviewInfo)
        ensures
            r.title == title,
            r.favicon == favicon,
            r.description == description,
            r.status@ == "success"@,
    {
        URLPreviewInfo { title, favicon, description, status: String::from_str("success") }
    }

    /// A preview that could not be fetched.
    pub fn error() -> (r: URLPreviewInfo)
        ensures
            r.title is None,
            r.favicon is None,
            r.description is None,
            r.status@ == "error"@,
    {
        URLPreviewInfo {
            title: None,
            favicon: None,
            description: None,
            status: String::from_str("error"),
        }
    }
}

/// Basic preview offered for a validated URL.
#[derive(Clone, Debug, PartialEq)]
pub struct URLPreview {
    pub url: String,
    pub title: String,
    pub domain: String,
    pub favicon_url: Option<String>,
    pub description: Option<String>,
}

} // verus!
