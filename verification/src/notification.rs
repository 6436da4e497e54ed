//! Desktop-notification queue and placement policy.
//!
//! Time is a monotonic clock reading in milliseconds; the runtime that owns
//! the D-Bus service and the Wayland surfaces supplies it.

use std::collections::VecDeque;
use vstd::prelude::*;
use crate::config::{NotificationAnchor, NotificationConfig};
use crate::find::{
    any_match, first_match, lemma_any_match_has_first, lemma_filter_all, lemma_filter_take_step,
    lemma_first_match_is, lemma_first_match_none,
};

verus! {

/// A notification action supplied as alternating `key`, `label` values by the
/// Desktop Notifications D-Bus API.
#[derive(Debug, PartialEq, Eq)]
pub struct NotificationAction {
    pub key: String,
    pub label: String,
}

/// A request received from the desktop-notification D-Bus service.
#[derive(Debug, PartialEq, Eq)]
pub struct NotificationRequest {
    pub id: u32,
    pub app_name: String,
    pub app_icon: String,
    pub summary: String,
    pub body: String,
    pub actions: Vec<NotificationAction>,
    /// Freedesktop timeout semantics: negative = server default, zero = never.
    pub expire_timeout_ms: i32,
}

/// A notification with its calculated deadline.
#[derive(Debug)]
pub struct Notification {
    pub id: u32,
    pub app_name: String,
    pub app_icon: String,
    pub summary: String,
    pub body: String,
    pub actions: Vec<NotificationAction>,
    expires_at_ms: Option<u64>,
}

/// Result of replacing, inserting, or expiring notifications.
#[derive(Debug, Clone, Copy, PartialEq, Eq, Structural)]
pub enum NotificationChange {
    Added(u32),
    Replaced(u32),
    Closed(u32),
}

/// Content of a [`NotificationAction`].
pub struct ActionModel {
    pub key: Seq<char>,
    pub label: Seq<char>,
}

/// Content of a [`Notification`]: the displayed texts, the actions and the
/// deadline (`None` = never expires).
pub struct NotificationModel {
    pub id: u32,
    pub app_name: Seq<char>,
    pub app_icon: Seq<char>,
    pub summary: Seq<char>,
    pub body: Seq<char>,
    pub actions: Seq<ActionModel>,
    pub expires_at: Option<u64>,
}

impl View for NotificationAction {
    type V = ActionModel;

    open spec fn view(&self) -> ActionModel {
        ActionModel { key: self.key@, label: self.label@ }
    }
}

/// Contents of a list of actions.
pub open spec fn actions_view(v: Seq<NotificationAction>) -> Seq<ActionModel> {
    v.map_values(|a: NotificationAction| a@)
}

impl View for Notification {
    type V = NotificationModel;

    closed spec fn view(&self) -> NotificationModel {
        NotificationModel {
            id: self.id,
            app_name: self.app_name@,
            app_icon: self.app_icon@,
            summary: self.summary@,
            body: self.body@,
            actions: actions_view(self.actions@),
            expires_at: self.expires_at_ms,
        }
    }
}

/// Lifetime in milliseconds of a notification asking for `requested`:
/// negative means the configured default, zero means forever.
pub open spec fn effective_timeout(requested: i32, default_timeout_ms: u32) -> u32 {
    if requested < 0 {
        default_timeout_ms
    } else {
        requested as u32
    }
}

/// The notification a request becomes when received at `now`.
pub open spec fn notification_from_request(
    r: NotificationRequest,
    default_timeout_ms: u32,
    now: u64,
) -> NotificationModel {
    let timeout = effective_timeout(r.expire_timeout_ms, default_timeout_ms);
    NotificationModel {
        id: r.id,
        app_name: r.app_name@,
        app_icon: r.app_icon@,
        summary: r.summary@,
        body: r.body@,
        actions: actions_view(r.actions@),
        expires_at: if timeout > 0 {
            Some((now + timeout) as u64)
        } else {
            None
        },
    }
}

/// Has the notification's deadline passed at `now`?
pub open spec fn is_expired(n: NotificationModel, now: u64) -> bool {
    n.expires_at matches Some(deadline) && deadline <= now
}

pub open spec fn expired_at(now: u64) -> spec_fn(NotificationModel) -> bool {
    |n: NotificationModel| is_expired(n, now)
}

pub open spec fn alive_at(now: u64) -> spec_fn(NotificationModel) -> bool {
    |n: NotificationModel| !is_expired(n, now)
}

pub open spec fn has_id(id: u32) -> spec_fn(NotificationModel) -> bool {
    |n: NotificationModel| n.id == id
}

pub open spec fn closed_change(n: NotificationModel) -> NotificationChange {
    NotificationChange::Closed(n.id)
}

impl Notification {
    fn from_request(request: NotificationRequest, config: &NotificationConfig, now_ms: u64) -> (r: Self)
        requires
            now_ms <= u64::MAX - u32::MAX,
        ensures
            r@ == notification_from_request(request, config.default_timeout_ms, now_ms),
    {
        let timeout_ms: u32 = if request.expire_timeout_ms < 0 {
            config.default_timeout_ms
        } else {
            request.expire_timeout_ms as u32
        };
        let expires_at_ms = if timeout_ms > 0 {
            Some(now_ms + timeout_ms as u64)
        } else {
            None
        };
        Notification {
            id: request.id,
            app_name: request.app_name,
            app_icon: request.app_icon,
            summary: request.summary,
            body: request.body,
            actions: request.actions,
            expires_at_ms,
        }
    }

    /// Deadline of this notification, if it expires at all.
    pub fn expires_at_ms(&self) -> (r: Option<u64>)
        ensures
            r == self@.expires_at,
    {
        self.expires_at_ms
    }

    fn expired(&self, now_ms: u64) -> (r: bool)
        ensures
            r == is_expired(self@, now_ms),
    {
        match self.expires_at_ms {
            Some(deadline) => deadline <= now_ms,
            None => false,
        }
    }
}

/// Queue model used by the Wayland runtime and D-Bus service bridge.
#[derive(Debug)]
pub struct NotificationCenter {
    notifications: VecDeque<Notification>,
}

/// Contents of a queue of notifications, oldest first.
pub open spec fn queue_view(q: Seq<Notification>) -> Seq<NotificationModel> {
    q.map_values(|n: Notification| n@)
}

impl View for NotificationCenter {
    type V = Seq<NotificationModel>;

    closed spec fn view(&self) -> Seq<NotificationModel> {
        queue_view(self.notifications@)
    }
}

impl Default for NotificationCenter {
    fn default() -> (r: Self)
        ensures
            r@.len() == 0,
    {
        NotificationCenter { notifications: VecDeque::new() }
    }
}

impl NotificationCenter {
    fn position(&self, id: u32) -> (r: Option<usize>)
        ensures
            match r {
                Some(i) => i < self@.len() && first_match(self@, has_id(id)) == Some(i as int),
                None => first_match(self@, has_id(id)) is None,
            },
    {
        let ghost s = self@;
        let mut i: usize = 0;
        while i < self.notifications.len()
            invariant
                i <= self@.len(),
                s == self@,
                forall|j: int| 0 <= j < i ==> !has_id(id)(#[trigger] s[j]),
            decreases self@.len() - i,
        {
            if self.notifications[i].id == id {
                proof {
                    lemma_first_match_is(s, has_id(id), i as int);
                }
                return Some(i);
            }
            i += 1;
        }
        proof {
            lemma_first_match_none(s, has_id(id));
        }
        None
    }

    /// Add a notification, or replace the queued one with the same ID in place.
    pub fn notify(&mut self, request: NotificationRequest, config: &NotificationConfig, now_ms: u64) -> (r: NotificationChange)
        requires
            now_ms <= u64::MAX - u32::MAX,
        ensures
            ({
                let n = notification_from_request(request, config.default_timeout_ms, now_ms);
                match first_match(old(self)@, has_id(request.id)) {
                    Some(i) => final(self)@ == old(self)@.update(i, n) && r == NotificationChange::Replaced(request.id),
                    None => final(self)@ == old(self)@.push(n) && r == NotificationChange::Added(request.id),
                }
            }),
            final(self)@ == notified(
                old(self)@,
                notification_from_request(request, config.default_timeout_ms, now_ms),
            ),
    {
        let id = request.id;
        let ghost req = request;
        let notification = Notification::from_request(request, config, now_ms);
        match self.position(id) {
            Some(i) => {
                let _ = self.notifications.remove(i);
                self.notifications.insert(i, notification);
                assert(self@ =~= old(self)@.update(i as int, notification_from_request(req, config.default_timeout_ms, now_ms)));
                NotificationChange::Replaced(id)
            },
            None => {
                self.notifications.push_back(notification);
                assert(self@ =~= old(self)@.push(notification_from_request(req, config.default_timeout_ms, now_ms)));
                NotificationChange::Added(id)
            },
        }
    }

    /// Remove the notification with ID `id`, if queued.
    pub fn close(&mut self, id: u32) -> (r: Option<NotificationChange>)
        ensures
            match first_match(old(self)@, has_id(id)) {
                Some(i) => final(self)@ == old(self)@.remove(i) && r == Some(NotificationChange::Closed(id)),
                None => final(self)@ == old(self)@ && r is None,
            },
    {
        match self.position(id) {
            Some(i) => {
                let _ = self.notifications.remove(i);
                assert(self@ =~= old(self)@.remove(i as int));
                Some(NotificationChange::Closed(id))
            },
            None => None,
        }
    }

    /// Drop every notification whose deadline has passed at `now_ms`,
    /// reporting each as closed, oldest first.
    pub fn expire(&mut self, now_ms: u64) -> (r: Vec<NotificationChange>)
        ensures
            final(self)@ == old(self)@.filter(alive_at(now_ms)),
            r@ == old(self)@.filter(expired_at(now_ms)).map_values(|n: NotificationModel| closed_change(n)),
    {
        let ghost s = self@;
        let n = self.notifications.len();
        let mut expired: Vec<NotificationChange> = Vec::new();
        let mut kept: VecDeque<Notification> = VecDeque::new();
        let mut k: usize = 0;
        while k < n
            invariant
                k <= n == s.len(),
                self@ == s.subrange(k as int, n as int),
                queue_view(kept@) == s.take(k as int).filter(alive_at(now_ms)),
                expired@ == s.take(k as int).filter(expired_at(now_ms)).map_values(|m: NotificationModel| closed_change(m)),
            decreases n - k,
        {
            proof {
                lemma_filter_take_step(s, alive_at(now_ms), k as int);
                lemma_filter_take_step(s, expired_at(now_ms), k as int);
            }
            assert(queue_view(self.notifications@).len() == self.notifications@.len());
            assert(self.notifications@.len() > 0);
            assert(queue_view(self.notifications@)[0] == self.notifications@[0]@);
            assert(s.subrange(k as int, n as int)[0] == s[k as int]);
            let ghost prev = self.notifications@;
            let item = match self.notifications.pop_front() {
                Some(x) => x,
                None => {
                    assert(false);
                    return expired;
                },
            };
            assert(item@ == s[k as int]);
            if item.expired(now_ms) {
                expired.push(NotificationChange::Closed(item.id));
                assert(expired@ =~= s.take(k as int + 1).filter(expired_at(now_ms)).map_values(|m: NotificationModel| closed_change(m)));
            } else {
                kept.push_back(item);
                assert(queue_view(kept@) =~= s.take(k as int + 1).filter(alive_at(now_ms)));
            }
            assert(queue_view(self.notifications@) =~= queue_view(prev).subrange(1, prev.len() as int));
            assert(self@ =~= s.subrange(k as int + 1, n as int));
            k += 1;
        }
        assert(s.take(n as int) =~= s);
        self.notifications = kept;
        expired
    }

    /// Newest notifications first, at most `max_visible` of them.
    pub fn visible(&self, max_visible: usize) -> (r: Vec<&Notification>)
        ensures
            r@.len() == if max_visible < self@.len() { max_visible as int } else { self@.len() as int },
            forall|j: int| 0 <= j < r@.len() ==> (#[trigger] r@[j])@ == self@[self@.len() - 1 - j],
    {
        let n = self.notifications.len();
        let count = if max_visible < n { max_visible } else { n };
        let mut out: Vec<&Notification> = Vec::new();
        let mut j: usize = 0;
        while j < count
            invariant
                j <= count <= n == self@.len(),
                out@.len() == j,
                forall|t: int| 0 <= t < j ==> (#[trigger] out@[t])@ == self@[n - 1 - t],
            decreases count - j,
        {
            out.push(&self.notifications[n - 1 - j]);
            j += 1;
        }
        out
    }

    /// Number of queued notifications.
    pub fn len(&self) -> (r: usize)
        ensures
            r == self@.len(),
    {
        self.notifications.len()
    }

    /// Is the queue empty?
    pub fn is_empty(&self) -> (r: bool)
        ensures
            r == (self@.len() == 0),
    {
        self.notifications.len() == 0
    }
}

/// Re-sending a notification with a queued ID replaces it and keeps the
/// queue length; a new ID grows the queue by one.
pub proof fn law_notify_replaces_in_place(q: Seq<NotificationModel>, id: u32, n: NotificationModel)
    requires
        n.id == id,
    ensures
        match first_match(q, has_id(id)) {
            Some(i) => q.update(i, n).len() == q.len() && first_match(q.update(i, n), has_id(id)) == Some(i),
            None => q.push(n).len() == q.len() + 1,
        },
{
    if let Some(i) = first_match(q, has_id(id)) {
        assert(crate::find::is_first_match(q, has_id(id), i)) by {
            let k = choose|k: int| crate::find::is_first_match(q, has_id(id), k);
            assert(crate::find::is_first_match(q, has_id(id), k));
        }
        lemma_first_match_is(q.update(i, n), has_id(id), i);
    }
}

/// No two queued notifications share an ID.
pub open spec fn ids_distinct(q: Seq<NotificationModel>) -> bool {
    forall|i: int, j: int| 0 <= i < j < q.len() ==> #[trigger] q[i].id != #[trigger] q[j].id
}

/// The queue `notify` leaves after `n` arrives in `q`: the queued
/// notification with `n`'s ID replaced in place, else `n` appended.
pub open spec fn notified(q: Seq<NotificationModel>, n: NotificationModel) -> Seq<NotificationModel> {
    match first_match(q, has_id(n.id)) {
        Some(i) => q.update(i, n),
        None => q.push(n),
    }
}

/// Notifying keeps IDs unique: afterwards exactly one queued notification
/// has the new one's ID, and it is the new one; every other notification
/// stays where it was, unchanged, and a new ID goes last.
pub proof fn law_notify_keeps_one_per_id(q: Seq<NotificationModel>, n: NotificationModel)
    requires
        ids_distinct(q),
    ensures
        ids_distinct(notified(q, n)),
        exists|k: int|
            0 <= k < notified(q, n).len() && notified(q, n)[k] == n && forall|j: int|
                0 <= j < notified(q, n).len() && j != k ==> #[trigger] notified(q, n)[j].id != n.id,
        forall|j: int|
            0 <= j < q.len() && q[j].id != n.id ==> #[trigger] notified(q, n)[j] == q[j],
        first_match(q, has_id(n.id)) is None ==> notified(q, n).len() == q.len() + 1
            && notified(q, n).last() == n,
        first_match(q, has_id(n.id)) is Some ==> notified(q, n).len() == q.len(),
{
    let q2 = notified(q, n);
    match first_match(q, has_id(n.id)) {
        Some(i) => {
            assert(crate::find::is_first_match(q, has_id(n.id), i)) by {
                let k = choose|k: int| crate::find::is_first_match(q, has_id(n.id), k);
                assert(crate::find::is_first_match(q, has_id(n.id), k));
            }
            assert(q[i].id == n.id);
            assert forall|j: int| 0 <= j < q2.len() && j != i implies #[trigger] q2[j].id != n.id by {
                if j < i {
                    assert(q[j].id != q[i].id);
                } else {
                    assert(q[i].id != q[j].id);
                }
            }
            assert forall|a: int, b: int| 0 <= a < b < q2.len() implies #[trigger] q2[a].id
                != #[trigger] q2[b].id by {
                if a != i && b != i {
                    assert(q[a].id != q[b].id);
                }
            }
            assert(q2[i] == n);
        },
        None => {
            assert forall|j: int| 0 <= j < q.len() implies #[trigger] q[j].id != n.id by {
                if q[j].id == n.id {
                    assert(any_match(q, has_id(n.id)));
                    lemma_any_match_has_first(q, has_id(n.id));
                }
            }
            assert forall|a: int, b: int| 0 <= a < b < q2.len() implies #[trigger] q2[a].id
                != #[trigger] q2[b].id by {
                if b < q.len() {
                    assert(q[a].id != q[b].id);
                } else {
                    assert(q[a].id != n.id);
                }
            }
            let k = q.len() as int;
            assert(q2[k] == n);
            assert forall|j: int| 0 <= j < q2.len() && j != k implies #[trigger] q2[j].id != n.id by {
                assert(q2[j] == q[j]);
            }
        },
    }
}

/// After expiry nothing left in the queue is past its deadline.
pub proof fn law_expire_leaves_only_live(q: Seq<NotificationModel>, now: u64)
    ensures
        forall|j: int| 0 <= j < q.filter(alive_at(now)).len() ==> !is_expired(#[trigger] q.filter(alive_at(now))[j], now),
{
    lemma_filter_all(q, alive_at(now));
}

/// Pixel size of the compact, two-line notification surface.
pub const NOTIFICATION_HEIGHT: u32 = 96;

/// A layer-shell independent position derived from a configured anchor.
#[derive(Debug, Clone, Copy, PartialEq, Eq, Structural)]
pub struct NotificationPlacement {
    pub anchor: NotificationAnchor,
    pub top: i32,
    pub right: i32,
    pub bottom: i32,
    pub left: i32,
}

/// `a * b`, saturating at `usize::MAX`.
pub open spec fn saturating_mul_spec(a: usize, b: usize) -> usize {
    if a * b > usize::MAX { usize::MAX } else { (a * b) as usize }
}

/// Distance of item `index` from the first one in a stack: whole items plus gaps.
pub open spec fn stack_offset_spec(c: NotificationConfig, index: usize, item_height: u32) -> i32 {
    saturating_mul_spec(index, (item_height + c.gap) as usize) as i32
}

/// Left margin that centres a `c.width` wide surface on the output, shifted
/// by the horizontal offset and never negative.
pub open spec fn centered_left_spec(c: NotificationConfig, output_width: u32) -> int {
    let free = if output_width >= c.width { output_width - c.width } else { 0 };
    let v = free / 2 + c.offset_x;
    if v < 0 { 0 } else { v }
}

/// The arithmetic of a placement stays within `i32`.
pub open spec fn placement_in_range(c: NotificationConfig, output_width: u32, index: usize, item_height: u32) -> bool {
    let x = (c.margin_x as i32) + c.offset_x;
    let y = (c.margin_y as i32) + c.offset_y;
    &&& item_height + c.gap <= usize::MAX
    &&& i32::MIN <= x <= i32::MAX
    &&& i32::MIN <= y <= i32::MAX
    &&& i32::MIN <= y + stack_offset_spec(c, index, item_height) <= i32::MAX
    &&& i32::MIN <= (if output_width >= c.width { output_width - c.width } else { 0 }) / 2 + c.offset_x <= i32::MAX
}

/// Layer-shell margins for one item of a notification stack: the stack grows
/// away from the anchored edge; the other edge's margin is the configured
/// margin plus offset; centred anchors use the centring margin on the left.
pub open spec fn placement_spec(c: NotificationConfig, output_width: u32, index: usize, item_height: u32) -> NotificationPlacement {
    let x = ((c.margin_x as i32) + c.offset_x) as i32;
    let y = ((c.margin_y as i32) + c.offset_y) as i32;
    let stacked = (y + stack_offset_spec(c, index, item_height)) as i32;
    let centered = centered_left_spec(c, output_width) as i32;
    match c.anchor {
        NotificationAnchor::TopLeft => NotificationPlacement { anchor: c.anchor, top: stacked, right: 0, bottom: 0, left: x },
        NotificationAnchor::TopCenter => NotificationPlacement { anchor: c.anchor, top: stacked, right: 0, bottom: 0, left: centered },
        NotificationAnchor::TopRight => NotificationPlacement { anchor: c.anchor, top: stacked, right: x, bottom: 0, left: 0 },
        NotificationAnchor::BottomLeft => NotificationPlacement { anchor: c.anchor, top: 0, right: 0, bottom: stacked, left: x },
        NotificationAnchor::BottomCenter => NotificationPlacement { anchor: c.anchor, top: 0, right: 0, bottom: stacked, left: centered },
        NotificationAnchor::BottomRight => NotificationPlacement { anchor: c.anchor, top: 0, right: x, bottom: stacked, left: 0 },
    }
}

/// Compute layer-shell margins for one item in a notification stack.
pub fn notification_placement(config: &NotificationConfig, output_width: u32, item_index: usize, item_height: u32) -> (r: NotificationPlacement)
    requires
        placement_in_range(*config, output_width, item_index, item_height),
    ensures
        r == placement_spec(*config, output_width, item_index, item_height),
{
    let step = item_height as usize + config.gap as usize;
    let product = match item_index.checked_mul(step) {
        Some(v) => v,
        None => usize::MAX,
    };
    let stack_offset = product as i32;
    let x = config.margin_x as i32 + config.offset_x;
    let y = config.margin_y as i32 + config.offset_y;
    let free = output_width.saturating_sub(config.width);
    let shifted = (free / 2) as i32 + config.offset_x;
    let centered_left = if shifted < 0 { 0 } else { shifted };
    let stacked = y + stack_offset;
    match config.anchor {
        NotificationAnchor::TopLeft => NotificationPlacement { anchor: config.anchor, top: stacked, right: 0, bottom: 0, left: x },
        NotificationAnchor::TopCenter => NotificationPlacement { anchor: config.anchor, top: stacked, right: 0, bottom: 0, left: centered_left },
        NotificationAnchor::TopRight => NotificationPlacement { anchor: config.anchor, top: stacked, right: x, bottom: 0, left: 0 },
        NotificationAnchor::BottomLeft => NotificationPlacement { anchor: config.anchor, top: 0, right: 0, bottom: stacked, left: x },
        NotificationAnchor::BottomCenter => NotificationPlacement { anchor: config.anchor, top: 0, right: 0, bottom: stacked, left: centered_left },
        NotificationAnchor::BottomRight => NotificationPlacement { anchor: config.anchor, top: 0, right: x, bottom: stacked, left: 0 },
    }
}


/// Where a notification sits: on the anchored side the margin is the
/// configured margin (as an `i32`) plus offset, on the opposite side it is 0 (centred
/// stacks use a non-negative left margin and no right margin, and without an
/// offset leave equal room, to a pixel, on both sides); the stack
/// grows away from the anchored edge, item `index` lying `index` whole items
/// and gaps further than the first.
pub proof fn law_placement_margins(c: NotificationConfig, output_width: u32, index: usize, item_height: u32)
    requires
        placement_in_range(c, output_width, index, item_height),
    ensures
        ({
            let p = placement_spec(c, output_width, index, item_height);
            let step = item_height + c.gap;
            &&& p.anchor == c.anchor
            &&& (c.anchor == NotificationAnchor::TopRight || c.anchor == NotificationAnchor::BottomRight)
                ==> p.right == (c.margin_x as i32) + c.offset_x && p.left == 0
            &&& (c.anchor == NotificationAnchor::TopLeft || c.anchor == NotificationAnchor::BottomLeft)
                ==> p.left == (c.margin_x as i32) + c.offset_x && p.right == 0
            &&& (c.anchor == NotificationAnchor::TopCenter || c.anchor
                == NotificationAnchor::BottomCenter) ==> p.left >= 0 && p.right == 0 && (c.offset_x
                == 0 && c.width <= output_width ==> 2 * p.left + c.width <= output_width <= 2
                * p.left + c.width + 1)
            &&& (c.anchor == NotificationAnchor::TopLeft || c.anchor == NotificationAnchor::TopCenter
                || c.anchor == NotificationAnchor::TopRight) ==> p.bottom == 0 && (index * step
                <= i32::MAX ==> p.top == (c.margin_y as i32) + c.offset_y + index * step)
            &&& (c.anchor == NotificationAnchor::BottomLeft || c.anchor
                == NotificationAnchor::BottomCenter || c.anchor == NotificationAnchor::BottomRight)
                ==> p.top == 0 && (index * step <= i32::MAX ==> p.bottom == (c.margin_y as i32)
                + c.offset_y + index * step)
        }),
{
    let step = item_height + c.gap;
    assert(((item_height + c.gap) as usize) == step);
    if index * step <= i32::MAX {
        assert(index * step <= usize::MAX);
        assert(saturating_mul_spec(index, step as usize) == index * step);
        assert(stack_offset_spec(c, index, item_height) == index * step);
    }
}

} // verus!
