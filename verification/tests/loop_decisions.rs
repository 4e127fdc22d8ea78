use graph_craft::overlays::{
    OverlayContext, OverlayProvider, OverlayResponse, OverlaysMessage, OverlaysMessageContext,
    OverlaysMessageHandler, OverlaysVisibilitySettings,
};
use graph_craft::present::{
    is_reportable, BindGroup, TextureBindings, WorkSchedule, WORK_TIMEOUT,
};
use graph_craft::primitives::{FloatBits, TextureHandle};

fn context(all: bool) -> OverlaysMessageContext {
    OverlaysMessageContext {
        visibility_settings: OverlaysVisibilitySettings { all },
        viewport_width: 800,
        viewport_height: 600,
        device_pixel_ratio: FloatBits::new(2.0f64.to_bits()),
    }
}

fn drawn(all: bool) -> OverlayContext {
    OverlayContext {
        width: 800,
        height: 600,
        device_pixel_ratio: FloatBits::new(2.0f64.to_bits()),
        visibility_settings: OverlaysVisibilitySettings { all },
    }
}

fn provider(id: u64) -> OverlayProvider {
    OverlayProvider { id }
}

#[test]
fn providers_are_kept_as_a_set() {
    let mut handler = OverlaysMessageHandler::new();
    let mut responses = Vec::new();
    assert_eq!(handler, OverlaysMessageHandler::default());
    assert!(handler.overlay_providers().is_empty());
    for id in [3, 1, 3, 2, 1] {
        handler.process_message(OverlaysMessage::AddProvider(provider(id)), &mut responses, context(true));
    }
    assert_eq!(handler.overlay_providers(), &vec![provider(3), provider(1), provider(2)]);
    assert!(handler.has_provider(provider(1)));
    assert!(!handler.has_provider(provider(4)));
    handler.process_message(OverlaysMessage::RemoveProvider(provider(1)), &mut responses, context(true));
    assert_eq!(handler.overlay_providers(), &vec![provider(3), provider(2)]);
    handler.process_message(OverlaysMessage::RemoveProvider(provider(9)), &mut responses, context(true));
    assert_eq!(handler.overlay_providers(), &vec![provider(3), provider(2)]);
    handler.process_message(OverlaysMessage::RemoveProvider(provider(3)), &mut responses, context(true));
    handler.process_message(OverlaysMessage::RemoveProvider(provider(2)), &mut responses, context(true));
    assert!(handler.overlay_providers().is_empty());
    assert!(responses.is_empty());
    assert_eq!(handler.clone(), handler);
}

#[test]
fn drawing_asks_the_grid_and_then_each_provider() {
    let mut handler = OverlaysMessageHandler::new();
    let mut responses = vec![OverlayResponse::GridOverlays(drawn(false))];
    handler.process_message(OverlaysMessage::Draw, &mut responses, context(true));
    assert_eq!(
        responses,
        vec![
            OverlayResponse::GridOverlays(drawn(false)),
            OverlayResponse::GridOverlays(drawn(true))
        ]
    );
    responses.clear();
    handler.process_message(OverlaysMessage::AddProvider(provider(7)), &mut responses, context(true));
    handler.process_message(OverlaysMessage::AddProvider(provider(5)), &mut responses, context(true));
    handler.process_message(OverlaysMessage::Draw, &mut responses, context(true));
    assert_eq!(
        responses,
        vec![
            OverlayResponse::GridOverlays(drawn(true)),
            OverlayResponse::Provide(provider(7), drawn(true)),
            OverlayResponse::Provide(provider(5), drawn(true)),
        ]
    );
    assert_eq!(handler.overlay_providers().len(), 2);
}

#[test]
fn nothing_is_drawn_while_overlays_are_hidden() {
    let mut handler = OverlaysMessageHandler::new();
    let mut responses = Vec::new();
    handler.process_message(OverlaysMessage::AddProvider(provider(1)), &mut responses, context(false));
    handler.process_message(OverlaysMessage::Draw, &mut responses, context(false));
    assert!(responses.is_empty());
    assert!(!context(false).visibility_settings.all());
    assert!(context(true).visibility_settings.all());
}

#[test]
fn embedded_browser_works_when_its_time_has_come() {
    let mut schedule = WorkSchedule::new(100);
    assert_eq!(schedule.scheduled, Some(100));
    assert_eq!(schedule.wait_until(50), 100);
    assert_eq!(schedule.wait_until(100), 100);
    assert_eq!(schedule.wait_until(500), 100);
    assert!(!schedule.take_due(100));
    assert_eq!(schedule.scheduled, Some(100));
    assert!(schedule.take_due(101));
    assert_eq!(schedule.scheduled, None);
    assert!(!schedule.take_due(1_000));
    assert_eq!(schedule.wait_until(500), 500 + WORK_TIMEOUT);
    assert!(schedule.request(400, 500));
    assert!(schedule.request(500, 500));
    assert_eq!(schedule.scheduled, None);
    assert!(!schedule.request(501, 500));
    assert_eq!(schedule.scheduled, Some(501));
    assert_eq!(schedule.wait_until(500), 501);
    assert!(!schedule.request(500 + 2 * WORK_TIMEOUT, 500));
    assert_eq!(schedule.wait_until(500), 500 + WORK_TIMEOUT);
    assert_eq!(schedule.wait_until(u64::MAX - WORK_TIMEOUT), 500 + 2 * WORK_TIMEOUT);
    assert_eq!(WORK_TIMEOUT, 10_000);
}

#[test]
fn one_texture_stands_in_for_the_other_until_both_are_bound() {
    let ui = TextureHandle { id: 1 };
    let viewport = TextureHandle { id: 2 };
    let mut bindings = TextureBindings::new();
    assert!(!bindings.can_draw());
    bindings.bind_ui_texture(ui);
    assert!(bindings.can_draw());
    assert_eq!(bindings.bind_group, Some(BindGroup { ui, viewport: ui }));
    bindings.bind_viewport_texture(viewport);
    assert_eq!(bindings.bind_group, Some(BindGroup { ui, viewport }));
    assert_eq!(bindings.ui_texture, Some(ui));
    assert_eq!(bindings.viewport_texture, Some(viewport));
    let mut other = TextureBindings::new();
    other.bind_viewport_texture(viewport);
    assert_eq!(other.bind_group, Some(BindGroup { ui: viewport, viewport }));
    other.bind_ui_texture(ui);
    assert_eq!(other, bindings);
    let newer = TextureHandle { id: 3 };
    other.bind_ui_texture(newer);
    assert_eq!(other.bind_group, Some(BindGroup { ui: newer, viewport }));
}

#[test]
fn having_no_document_is_not_worth_a_line_in_the_log() {
    assert!(!is_reportable("No active document"));
    assert!(is_reportable("No active document "));
    assert!(is_reportable("no active document"));
    assert!(is_reportable(""));
    assert!(is_reportable("Node graph evaluation failed"));
}
