//! Overlays: the set of providers that draw over the viewport, and what is
//! asked of them when the overlays are drawn.
//!
//! A provider stands for a function that draws. Drawing itself happens
//! elsewhere: handling a message here only says which providers are asked to
//! draw, and with what context.

use vstd::prelude::*;
use crate::primitives::FloatBits;

verus! {

/// A provider of overlays, told from the others by its identifier.
#[derive(Clone, Copy, Debug, PartialEq, Eq, Structural)]
pub struct OverlayProvider {
    pub id: u64,
}

/// Which overlays are shown.
#[derive(Clone, Copy, Debug, PartialEq, Eq, Structural)]
pub struct OverlaysVisibilitySettings {
    /// Whether overlays are shown at all.
    pub all: bool,
}

impl OverlaysVisibilitySettings {
    /// Whether overlays are shown at all.
    pub fn all(&self) -> (r: bool)
        ensures
            r == self.all,
    {
        self.all
    }
}

/// What handling a message about overlays needs to know of its surroundings:
/// which overlays are shown, the size of the viewport in whole pixels, and the
/// number of device pixels to a pixel.
#[derive(Clone, Copy, Debug, PartialEq, Eq, Structural)]
pub struct OverlaysMessageContext {
    pub visibility_settings: OverlaysVisibilitySettings,
    pub viewport_width: u32,
    pub viewport_height: u32,
    pub device_pixel_ratio: FloatBits,
}

/// What a provider is handed when it is asked to draw.
#[derive(Clone, Copy, Debug, PartialEq, Eq, Structural)]
pub struct OverlayContext {
    pub width: u32,
    pub height: u32,
    pub device_pixel_ratio: FloatBits,
    pub visibility_settings: OverlaysVisibilitySettings,
}

/// A message about overlays.
#[derive(Clone, Copy, Debug, PartialEq, Eq, Structural)]
pub enum OverlaysMessage {
    /// Draw the overlays.
    Draw,
    /// Take a provider into the set.
    AddProvider(OverlayProvider),
    /// Take a provider out of the set.
    RemoveProvider(OverlayProvider),
}

/// What is to be done in answer to a message.
#[derive(Clone, Copy, Debug, PartialEq, Eq, Structural)]
pub enum OverlayResponse {
    /// Draw the overlays of the grid.
    GridOverlays(OverlayContext),
    /// Ask a provider to draw.
    Provide(OverlayProvider, OverlayContext),
}

/// A sequence without the items equal to `p`, the others in their order.
pub open spec fn without(s: Seq<OverlayProvider>, p: OverlayProvider) -> Seq<OverlayProvider>
    decreases s.len(),
{
    if s.len() == 0 {
        s
    } else if s.last() == p {
        without(s.drop_last(), p)
    } else {
        without(s.drop_last(), p).push(s.last())
    }
}

/// The providers after one was taken in: it comes last, unless it was there.
pub open spec fn with(s: Seq<OverlayProvider>, p: OverlayProvider) -> Seq<OverlayProvider> {
    if s.contains(p) {
        s
    } else {
        s.push(p)
    }
}

/// The context that drawing hands out.
pub open spec fn drawing_context(context: OverlaysMessageContext) -> OverlayContext {
    OverlayContext {
        width: context.viewport_width,
        height: context.viewport_height,
        device_pixel_ratio: context.device_pixel_ratio,
        visibility_settings: context.visibility_settings,
    }
}

/// What drawing asks for: nothing where no overlays are shown, and else the
/// overlays of the grid and then each provider in turn.
pub open spec fn drawing(
    providers: Seq<OverlayProvider>,
    context: OverlaysMessageContext,
) -> Seq<OverlayResponse> {
    if context.visibility_settings.all {
        seq![OverlayResponse::GridOverlays(drawing_context(context))] + Seq::new(
            providers.len(),
            |i: int| OverlayResponse::Provide(providers[i], drawing_context(context)),
        )
    } else {
        Seq::empty()
    }
}

/// Taking a provider out leaves the others, each once and in their order,
/// and the provider itself nowhere.
pub proof fn lemma_without(s: Seq<OverlayProvider>, p: OverlayProvider)
    requires
        s.no_duplicates(),
    ensures
        !without(s, p).contains(p),
        without(s, p).no_duplicates(),
        without(s, p).len() <= s.len(),
        forall|q: OverlayProvider| q != p ==> (without(s, p).contains(q) <==> s.contains(q)),
        !s.contains(p) ==> without(s, p) == s,
    decreases s.len(),
{
    if s.len() > 0 {
        let front = s.drop_last();
        let last = s.last();
        lemma_without(front, p);
        assert(s == front.push(last));
        assert forall|q: OverlayProvider| s.contains(q) <==> (front.contains(q) || q == last) by {
            if s.contains(q) {
                let i = choose|i: int| 0 <= i < s.len() && s[i] == q;
                if i < front.len() {
                    assert(front[i] == q);
                }
            }
            if front.contains(q) {
                let i = choose|i: int| 0 <= i < front.len() && front[i] == q;
                assert(s[i] == q);
            }
            if q == last {
                assert(s[s.len() - 1] == q);
            }
        }
        assert(!front.contains(last)) by {
            if front.contains(last) {
                let i = choose|i: int| 0 <= i < front.len() && front[i] == last;
                assert(s[i] == s[s.len() - 1]);
            }
        }
        if last != p {
            let kept = without(front, p);
            let r = kept.push(last);
            assert forall|q: OverlayProvider| r.contains(q) <==> (kept.contains(q) || q == last) by {
                if r.contains(q) {
                    let i = choose|i: int| 0 <= i < r.len() && r[i] == q;
                    if i < kept.len() {
                        assert(kept[i] == q);
                    }
                }
                if kept.contains(q) {
                    let i = choose|i: int| 0 <= i < kept.len() && kept[i] == q;
                    assert(r[i] == q);
                }
                if q == last {
                    assert(r[r.len() - 1] == q);
                }
            }
            assert(!kept.contains(last));
            assert(r.no_duplicates()) by {
                assert forall|i: int, j: int| 0 <= i < r.len() && 0 <= j < r.len() && i != j implies r[i]
                    != r[j] by {
                    if i < kept.len() && j < kept.len() {
                        assert(kept[i] != kept[j]);
                    } else if i < kept.len() {
                        assert(kept.contains(kept[i]));
                    } else if j < kept.len() {
                        assert(kept.contains(kept[j]));
                    }
                }
            }
            if !s.contains(p) {
                assert(!front.contains(p));
            }
        } else {
            assert(front.no_duplicates());
        }
    }
}

/// Keeps the set of providers of overlays, and answers the messages about
/// overlays.
#[derive(Debug, PartialEq, Eq)]
pub struct OverlaysMessageHandler {
    overlay_providers: Vec<OverlayProvider>,
}

impl OverlaysMessageHandler {
    #[verifier::type_invariant]
    pub closed spec fn holds_each_once(self) -> bool {
        self.overlay_providers@.no_duplicates()
    }

    /// The providers of the set, in the order in which they are asked to
    /// draw. None occurs twice.
    pub closed spec fn providers(self) -> Seq<OverlayProvider> {
        self.overlay_providers@
    }

    /// A handler without providers.
    pub fn new() -> (r: OverlaysMessageHandler)
        ensures
            r.providers() == Seq::<OverlayProvider>::empty(),
    {
        OverlaysMessageHandler { overlay_providers: Vec::new() }
    }

    /// The providers of the set, in the order in which they are asked to
    /// draw.
    pub fn overlay_providers(&self) -> (r: &Vec<OverlayProvider>)
        ensures
            r@ == self.providers(),
            r@.no_duplicates(),
    {
        proof {
            use_type_invariant(self);
        }
        &self.overlay_providers
    }

    /// Whether a provider is in the set.
    pub fn has_provider(&self, provider: OverlayProvider) -> (r: bool)
        ensures
            r == self.providers().contains(provider),
    {
        let mut i: usize = 0;
        while i < self.overlay_providers.len()
            invariant
                i <= self.overlay_providers.len(),
                forall|j: int| 0 <= j < i ==> self.overlay_providers@[j] != provider,
            decreases self.overlay_providers.len() - i,
        {
            if self.overlay_providers[i].id == provider.id {
                return true;
            }
            i = i + 1;
        }
        false
    }

    /// Answers a message. Drawing changes nothing and asks, where overlays
    /// are shown, for the overlays of the grid and then for those of each
    /// provider, with the size of the viewport and the pixel ratio of the
    /// context. Taking a provider in or out changes the set and asks for
    /// nothing.
    pub fn process_message(
        &mut self,
        message: OverlaysMessage,
        responses: &mut Vec<OverlayResponse>,
        context: OverlaysMessageContext,
    )
        ensures
            match message {
                OverlaysMessage::Draw => {
                    &&& final(self).providers() == old(self).providers()
                    &&& final(responses)@ == old(responses)@ + drawing(
                        old(self).providers(),
                        context,
                    )
                },
                OverlaysMessage::AddProvider(provider) => {
                    &&& final(self).providers() == with(old(self).providers(), provider)
                    &&& final(responses)@ == old(responses)@
                },
                OverlaysMessage::RemoveProvider(provider) => {
                    &&& final(self).providers() == without(old(self).providers(), provider)
                    &&& final(responses)@ == old(responses)@
                },
            },
    {
        proof {
            use_type_invariant(&*self);
        }
        match message {
            OverlaysMessage::Draw => {
                if context.visibility_settings.all() {
                    let overlay_context = OverlayContext {
                        width: context.viewport_width,
                        height: context.viewport_height,
                        device_pixel_ratio: context.device_pixel_ratio,
                        visibility_settings: context.visibility_settings,
                    };
                    let ghost before = responses@;
                    let ghost asked = drawing(self.overlay_providers@, context);
                    responses.push(OverlayResponse::GridOverlays(overlay_context));
                    let mut i: usize = 0;
                    while i < self.overlay_providers.len()
                        invariant
                            i <= self.overlay_providers.len(),
                            overlay_context == drawing_context(context),
                            context.visibility_settings.all,
                            asked == drawing(self.overlay_providers@, context),
                            responses@ == before + asked.take(i + 1),
                        decreases self.overlay_providers.len() - i,
                    {
                        responses.push(
                            OverlayResponse::Provide(self.overlay_providers[i], overlay_context),
                        );
                        assert(asked.take(i + 2) == asked.take(i + 1).push(asked[i + 1]));
                        i = i + 1;
                    }
                    assert(asked.take(self.overlay_providers.len() + 1) == asked);
                } else {
                    assert(responses@ + Seq::<OverlayResponse>::empty() == responses@);
                }
            },
            OverlaysMessage::AddProvider(provider) => {
                if !self.has_provider(provider) {
                    let ghost before = self.overlay_providers@;
                    let mut extended = self.overlay_providers.clone();
                    extended.push(provider);
                    assert(extended@.no_duplicates()) by {
                        let after = extended@;
                        assert forall|i: int, j: int|
                            0 <= i < after.len() && 0 <= j < after.len() && i != j implies after[i]
                            != after[j] by {
                            if i < before.len() && j < before.len() {
                                assert(before[i] != before[j]);
                            } else if i < before.len() {
                                assert(before.contains(before[i]));
                            } else if j < before.len() {
                                assert(before.contains(before[j]));
                            }
                        }
                    }
                    self.overlay_providers = extended;
                }
            },
            OverlaysMessage::RemoveProvider(provider) => {
                let mut kept: Vec<OverlayProvider> = Vec::new();
                let mut i: usize = 0;
                assert(self.overlay_providers@.take(0) == Seq::<OverlayProvider>::empty());
                while i < self.overlay_providers.len()
                    invariant
                        i <= self.overlay_providers.len(),
                        kept@ == without(self.overlay_providers@.take(i as int), provider),
                    decreases self.overlay_providers.len() - i,
                {
                    let ghost next = self.overlay_providers@.take(i + 1);
                    assert(next.drop_last() == self.overlay_providers@.take(i as int));
                    assert(next.last() == self.overlay_providers@[i as int]);
                    if self.overlay_providers[i].id != provider.id {
                        kept.push(self.overlay_providers[i]);
                    }
                    i = i + 1;
                }
                assert(self.overlay_providers@.take(self.overlay_providers.len() as int)
                    == self.overlay_providers@);
                proof {
                    lemma_without(self.overlay_providers@, provider);
                }
                self.overlay_providers = kept;
            },
        }
    }
}

impl Clone for OverlaysMessageHandler {
    fn clone(&self) -> (r: OverlaysMessageHandler)
        ensures
            r.providers() == self.providers(),
    {
        proof {
            use_type_invariant(self);
        }
        OverlaysMessageHandler { overlay_providers: self.overlay_providers.clone() }
    }
}

impl Default for OverlaysMessageHandler {
    fn default() -> (r: OverlaysMessageHandler)
        ensures
            r.providers() == Seq::<OverlayProvider>::empty(),
    {
        OverlaysMessageHandler::new()
    }
}

} // verus!
