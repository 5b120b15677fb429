use vstd::prelude::*;

use crate::http_info::HttpInfo;

verus! {

/// A piece of transport-specific metadata, tagged by its kind.
///
/// The slot of a `Connected` holds at most one of these; looking one up by
/// kind finds it only where the stored value is of that kind.
#[non_exhaustive]
#[derive(Clone, Copy, Debug, PartialEq, Eq, Structural)]
pub enum Extra {
    Http(HttpInfo),
}

/// The `HttpInfo` held in an extra slot, if the slot holds one.
pub open spec fn http_info_of(extra: Option<Extra>) -> Option<HttpInfo> {
    match extra {
        Some(Extra::Http(info)) => Some(info),
        _ => None,
    }
}

/// Facts known about an established transport connection.
#[derive(Clone, Debug)]
pub struct Connected {
    reusable: bool,
    extra: Option<Extra>,
}

/// What a `Connected` holds: the reuse flag and the extra slot.
pub struct ConnectedView {
    pub reusable: bool,
    pub extra: Option<Extra>,
}

impl ConnectedView {
    /// A descriptor with nothing set: reusable, with an empty slot.
    pub open spec fn fresh() -> ConnectedView {
        ConnectedView { reusable: true, extra: None }
    }

    /// The same descriptor with the reuse flag replaced.
    pub open spec fn with_reusable(self, reusable: bool) -> ConnectedView {
        ConnectedView { reusable, extra: self.extra }
    }

    /// The same descriptor with `value` in the slot, in place of whatever was there.
    pub open spec fn with_extra(self, value: Extra) -> ConnectedView {
        ConnectedView { reusable: self.reusable, extra: Some(value) }
    }
}

impl View for Connected {
    type V = ConnectedView;

    closed spec fn view(&self) -> ConnectedView {
        ConnectedView { reusable: self.reusable, extra: self.extra }
    }
}

impl Connected {
    /// A new descriptor: reusable, with no extra metadata.
    pub fn new() -> (r: Connected)
        ensures
            r@ == ConnectedView::fresh(),
            r@.reusable,
            http_info_of(r@.extra) is None,
    {
        Connected { reusable: true, extra: None }
    }

    /// Sets whether the connection may be reused.
    pub fn set_reusable(self, reusable: bool) -> (r: Connected)
        ensures
            r@ == self@.with_reusable(reusable),
    {
        Connected { reusable, extra: self.extra }
    }

    /// Stores `value` as the extra metadata, dropping any earlier value.
    pub fn attach(self, value: Extra) -> (r: Connected)
        ensures
            r@ == self@.with_extra(value),
    {
        Connected { reusable: self.reusable, extra: Some(value) }
    }

    /// Whether the connection may be reused.
    pub fn is_reusable(&self) -> (r: bool)
        ensures
            r == self@.reusable,
    {
        self.reusable
    }

    /// The `HttpInfo` attached, or `None` where the slot is empty or holds
    /// another kind of metadata.
    pub fn http_info(&self) -> (r: Option<HttpInfo>)
        ensures
            r == http_info_of(self@.extra),
    {
        match &self.extra {
            Some(Extra::Http(info)) => Some(*info),
            None => None,
        }
    }

    /// Hands the extra metadata over, consuming the descriptor.
    pub fn into_extra(self) -> (r: Option<Extra>)
        ensures
            r == self@.extra,
    {
        self.extra
    }
}

/// A transport that can describe itself once established.
///
/// Implementations only read what the transport already knows, and never
/// fail: where a query fails, they return a descriptor without the metadata.
pub trait Connection {
    fn connected(&self) -> Connected;
}

/// The last reuse flag set is the one that stands, whatever was attached
/// before or after it.
pub proof fn lemma_last_reusable_wins(c: ConnectedView, a: bool, b: bool, value: Extra)
    ensures
        c.with_reusable(a).with_reusable(b).reusable == b,
        c.with_reusable(b).with_extra(value).reusable == b,
        c.with_extra(value).with_reusable(b).reusable == b,
        c.with_reusable(b).with_extra(value) == c.with_extra(value).with_reusable(b),
        !c.with_reusable(false).reusable,
{
}

/// Attaching one value and then another leaves only the second in the slot:
/// the first can no longer be retrieved, unless it equals the second.
pub proof fn lemma_last_attach_wins(c: ConnectedView, first: Extra, second: Extra)
    ensures
        c.with_extra(first).with_extra(second).extra == Some(second),
        c.with_extra(first).with_extra(second) == c.with_extra(second),
        http_info_of(c.with_extra(first).with_extra(second).extra) == http_info_of(
            Some(second),
        ),
        first != second ==> c.with_extra(first).with_extra(second).extra != Some(first),
{
}

/// Looking up a kind that was never attached finds nothing: an empty slot
/// yields `None` for every kind, and a fresh descriptor has an empty slot.
pub proof fn lemma_absent_when_never_attached(c: ConnectedView, reusable: bool)
    ensures
        ConnectedView::fresh().extra is None,
        c.extra is None ==> http_info_of(c.extra) is None,
        c.extra is None ==> http_info_of(c.with_reusable(reusable).extra) is None,
{
}

} // verus!
