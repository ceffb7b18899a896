use volt::config::{ConfigError, Rgba, WindowOptions};
use volt::context::Context;
use volt::dispatch::{Action, Event, FrameLoop, Modifiers, Phase};
use volt::layers::{record_outcome, FrameOp, FrameTarget, Layer, LayerRegistry, PaintFailure};
use volt::negotiate::{negotiate, ContextCreationError, GlApi, NegotiationStep, Negotiator};
use volt::pixel_format::{select_config, ConfigCandidate};
use volt::surface::{framebuffer_target, SurfaceBindError};

#[derive(Default)]
struct Recorder {
    log: Vec<String>,
    presents: usize,
}

impl FrameTarget for Recorder {
    fn clear(&mut self, color: Rgba) {
        self.log.push(format!("clear {} {} {} {}", color.r, color.g, color.b, color.a));
    }

    fn present(&mut self) {
        self.presents += 1;
        self.log.push("present".to_string());
    }
}

struct Named {
    name: &'static str,
    fails: bool,
}

impl Layer<Recorder> for Named {
    fn paint(&self, target: &mut Recorder) -> Result<(), String> {
        target.log.push(format!("paint {}", self.name));
        if self.fails {
            Err(format!("{} failed", self.name))
        } else {
            Ok(())
        }
    }
}

fn layer(name: &'static str) -> Named {
    Named { name, fails: false }
}

fn black_options() -> WindowOptions {
    WindowOptions::new("volt".to_string(), 800, 600, Rgba::from_rgb(0, 0, 0)).unwrap()
}

fn logo() -> Modifiers {
    Modifiers { shift: false, control: false, alt: false, logo: true }
}

/// Drives one redraw from an idle context through bind and paint.
fn redraw_once(ctx: &mut Context<Named>, target: &mut Recorder) -> volt::layers::FrameReport {
    let a = ctx.handle_event(Event::RedrawRequested);
    let a = match a {
        Action::Bind(_, _) => ctx.bind_finished(true),
        other => other,
    };
    assert_eq!(a, Action::Paint);
    ctx.redraw(target)
}

#[test]
fn options_accept_valid_configuration() {
    let o = black_options();
    assert_eq!(o.title, "volt");
    assert_eq!((o.width, o.height), (800, 600));
    assert_eq!(o.background, Rgba { r: 0, g: 0, b: 0, a: 255 });
}

#[test]
fn options_reject_empty_size() {
    let r = WindowOptions::new("t".to_string(), 0, 600, Rgba::from_rgb(1, 2, 3));
    assert_eq!(r.unwrap_err(), ConfigError::EmptySize);
    let r = WindowOptions::new("t".to_string(), 10, 0, Rgba { r: 0, g: 0, b: 0, a: 0 });
    assert_eq!(r.unwrap_err(), ConfigError::EmptySize);
}

#[test]
fn options_reject_translucent_background() {
    let r = WindowOptions::new("t".to_string(), 10, 10, Rgba { r: 0, g: 0, b: 0, a: 254 });
    assert_eq!(r.unwrap_err(), ConfigError::TranslucentBackground);
}

#[test]
fn context_rejects_invalid_options() {
    let o = WindowOptions { title: "t".to_string(), width: 5, height: 5, background: Rgba { r: 9, g: 9, b: 9, a: 10 } };
    assert_eq!(Context::<Named>::new(o, 5, 5).err(), Some(ConfigError::TranslucentBackground));
    let o = WindowOptions { title: "t".to_string(), width: 0, height: 5, background: Rgba::from_rgb(0, 0, 0) };
    assert_eq!(Context::<Named>::new(o, 5, 5).err(), Some(ConfigError::EmptySize));
}

#[test]
fn select_config_prefers_transparency_then_fewer_samples() {
    let cs = vec![
        ConfigCandidate { transparency: Some(false), samples: 0 },
        ConfigCandidate { transparency: Some(true), samples: 4 },
        ConfigCandidate { transparency: None, samples: 0 },
        ConfigCandidate { transparency: Some(true), samples: 2 },
        ConfigCandidate { transparency: Some(true), samples: 2 },
    ];
    assert_eq!(select_config(&cs), Some(3));
}

#[test]
fn select_config_without_transparency_takes_fewest_samples() {
    let cs = vec![
        ConfigCandidate { transparency: None, samples: 8 },
        ConfigCandidate { transparency: Some(false), samples: 2 },
        ConfigCandidate { transparency: None, samples: 2 },
    ];
    assert_eq!(select_config(&cs), Some(1));
    assert_eq!(select_config(&vec![]), None);
}

#[test]
fn negotiate_prefers_desktop_api() {
    let c = negotiate(true, false, true).unwrap();
    assert_eq!(c.api, GlApi::Desktop);
    assert!(c.is_current());
}

#[test]
fn negotiate_falls_back_when_primary_fails() {
    let c = negotiate(false, true, true).unwrap();
    assert_eq!(c.api, GlApi::Embedded);
    assert!(c.is_current());
}

#[test]
fn negotiate_errors() {
    assert_eq!(negotiate(false, false, true), Err(ContextCreationError::NoContext));
    assert_eq!(negotiate(true, true, false), Err(ContextCreationError::NotCurrent));
    assert_eq!(negotiate(false, true, false), Err(ContextCreationError::NotCurrent));
}

#[test]
fn negotiator_asks_fallback_only_after_primary_failure() {
    let mut n = Negotiator::new();
    assert_eq!(n.next_step(), NegotiationStep::Create(GlApi::Desktop));
    n.report(false);
    assert_eq!(n.next_step(), NegotiationStep::Create(GlApi::Embedded));
    n.report(true);
    assert_eq!(n.next_step(), NegotiationStep::MakeCurrent(GlApi::Embedded));
    assert_eq!(n.outcome(), None);
    n.report(true);
    assert_eq!(n.next_step(), NegotiationStep::Finished);
    let c = n.outcome().unwrap().unwrap();
    assert_eq!(c.api, GlApi::Embedded);
    assert!(c.is_current());
}

#[test]
fn framebuffer_target_matches_size() {
    let t = framebuffer_target(3, 1024, 768, 4, 8).unwrap();
    assert_eq!((t.fboid, t.width, t.height, t.samples, t.stencil), (3, 1024, 768, 4, 8));
}

#[test]
fn framebuffer_target_errors() {
    assert_eq!(framebuffer_target(-1, 10, 10, 0, 8), Err(SurfaceBindError::InvalidFramebuffer));
    assert_eq!(framebuffer_target(0, 0, 10, 0, 8), Err(SurfaceBindError::EmptySize));
    assert_eq!(framebuffer_target(0, 10, 2147483648, 0, 8), Err(SurfaceBindError::SizeOutOfRange));
    assert!(framebuffer_target(0, 2147483647, 1, 0, 8).is_ok());
}

#[test]
fn resize_rebinds_at_new_size() {
    let mut l = FrameLoop::new(800, 600);
    assert_eq!(l.handle_event(Event::RedrawRequested), Action::Bind(800, 600));
    assert_eq!(l.bind_finished(true), Action::Paint);
    l.frame_presented();
    assert_eq!(l.handle_event(Event::Resized(800, 600)), Action::Nothing);
    assert_eq!(l.handle_event(Event::Resized(1024, 700)), Action::RequestRedraw);
    assert!(l.is_dirty());
    assert_eq!(l.handle_event(Event::RedrawRequested), Action::Bind(1024, 700));
    assert_eq!(l.bind_finished(true), Action::Paint);
    assert_eq!(l.state().bound, Some((1024, 700)));
    let t = framebuffer_target(0, 1024, 700, 0, 8).unwrap();
    assert_eq!((t.width, t.height), (1024, 700));
}

#[test]
fn bound_surface_is_reused_without_resize() {
    let mut l = FrameLoop::new(640, 480);
    assert_eq!(l.handle_event(Event::RedrawRequested), Action::Bind(640, 480));
    assert_eq!(l.bind_finished(true), Action::Paint);
    l.frame_presented();
    assert_eq!(l.handle_event(Event::KeyPressed(Some('a'))), Action::RequestRedraw);
    assert_eq!(l.handle_event(Event::RedrawRequested), Action::Paint);
}

#[test]
fn bind_failures_retry_then_become_fatal() {
    let mut l = FrameLoop::new(640, 480);
    assert_eq!(l.handle_event(Event::RedrawRequested), Action::Bind(640, 480));
    assert_eq!(l.bind_finished(false), Action::RequestRedraw);
    assert!(l.is_dirty());
    assert_eq!(l.phase(), Phase::Idle);
    assert_eq!(l.handle_event(Event::RedrawRequested), Action::Bind(640, 480));
    assert_eq!(l.bind_finished(false), Action::RequestRedraw);
    assert_eq!(l.handle_event(Event::RedrawRequested), Action::Bind(640, 480));
    assert_eq!(l.bind_finished(false), Action::Fail);
    assert_eq!(l.phase(), Phase::ShuttingDown);
}

#[test]
fn bind_success_resets_failure_count() {
    let mut l = FrameLoop::new(640, 480);
    l.handle_event(Event::RedrawRequested);
    assert_eq!(l.bind_finished(false), Action::RequestRedraw);
    l.handle_event(Event::RedrawRequested);
    assert_eq!(l.bind_finished(false), Action::RequestRedraw);
    l.handle_event(Event::RedrawRequested);
    assert_eq!(l.bind_finished(true), Action::Paint);
    assert_eq!(l.state().bind_failures, 0);
}

#[test]
fn dirty_flag_lifecycle() {
    let mut ctx: Context<Named> = Context::new(black_options(), 800, 600).unwrap();
    assert!(ctx.is_dirty());
    let mut target = Recorder::default();
    redraw_once(&mut ctx, &mut target);
    assert!(!ctx.is_dirty());
    assert_eq!(ctx.handle_event(Event::Other), Action::Nothing);
    assert_eq!(ctx.handle_event(Event::CursorMoved(5, 7)), Action::Nothing);
    assert_eq!(ctx.handle_event(Event::ModifiersChanged(logo())), Action::Nothing);
    assert_eq!(ctx.handle_event(Event::RedrawRequested), Action::Nothing);
    assert!(!ctx.is_dirty());
    assert_eq!(ctx.state().interaction.cursor, (5, 7));
    assert_eq!(ctx.handle_event(Event::KeyPressed(Some('x'))), Action::RequestRedraw);
    assert!(ctx.is_dirty());
}

#[test]
fn quit_combination_shuts_down() {
    let mut l = FrameLoop::new(100, 100);
    assert_eq!(l.handle_event(Event::CursorMoved(3, 4)), Action::Nothing);
    assert_eq!(l.handle_event(Event::ModifiersChanged(logo())), Action::Nothing);
    assert_eq!(l.handle_event(Event::KeyPressed(Some('q'))), Action::Exit);
    assert_eq!(l.phase(), Phase::ShuttingDown);
    assert_eq!(l.handle_event(Event::RedrawRequested), Action::Nothing);
    assert_eq!(l.phase(), Phase::ShuttingDown);
}

#[test]
fn q_without_logo_only_redraws() {
    let mut l = FrameLoop::new(100, 100);
    let shift = Modifiers { shift: true, control: false, alt: false, logo: false };
    l.handle_event(Event::ModifiersChanged(shift));
    assert_eq!(l.handle_event(Event::KeyPressed(Some('q'))), Action::RequestRedraw);
    assert_eq!(l.phase(), Phase::Idle);
    assert_eq!(l.state().interaction.modifiers, shift);
}

#[test]
fn close_request_skips_pending_paint() {
    let mut l = FrameLoop::new(100, 100);
    assert_eq!(l.handle_event(Event::CloseRequested), Action::Exit);
    assert_eq!(l.handle_event(Event::RedrawRequested), Action::Nothing);
    assert!(l.is_dirty());
}

#[test]
fn paint_all_continues_after_failure() {
    let mut reg = LayerRegistry::new();
    reg.append(layer("A"));
    reg.append(Named { name: "B", fails: true });
    reg.append(layer("C"));
    reg.append(Named { name: "D", fails: true });
    assert_eq!(reg.len(), 4);
    let mut target = Recorder::default();
    let report = reg.paint_all(&mut target);
    assert_eq!(report.ops, vec![FrameOp::Paint(0), FrameOp::Paint(1), FrameOp::Paint(2), FrameOp::Paint(3)]);
    assert_eq!(target.log, vec!["paint A", "paint B", "paint C", "paint D"]);
    let failed: Vec<(usize, String)> = report.failures.iter().map(|f| (f.layer, f.message.clone())).collect();
    assert_eq!(failed, vec![(1, "B failed".to_string()), (3, "D failed".to_string())]);
}

#[test]
fn empty_frame_clears_to_black_and_presents_once() {
    let mut ctx: Context<Named> = Context::new(black_options(), 800, 600).unwrap();
    let mut target = Recorder::default();
    let report = redraw_once(&mut ctx, &mut target);
    assert_eq!(target.log, vec!["clear 0 0 0 255", "present"]);
    assert_eq!(target.presents, 1);
    assert_eq!(report.ops, vec![FrameOp::Clear(Rgba { r: 0, g: 0, b: 0, a: 255 }), FrameOp::Present]);
    assert!(report.failures.is_empty());
}

#[test]
fn two_layers_paint_in_registration_order() {
    let mut ctx: Context<Named> = Context::new(black_options(), 800, 600).unwrap();
    ctx.add_layer(layer("A"));
    ctx.add_layer(layer("B"));
    let mut target = Recorder::default();
    let report = redraw_once(&mut ctx, &mut target);
    assert_eq!(target.log, vec!["clear 0 0 0 255", "paint A", "paint B", "present"]);
    assert_eq!(
        report.ops,
        vec![FrameOp::Clear(Rgba::from_rgb(0, 0, 0)), FrameOp::Paint(0), FrameOp::Paint(1), FrameOp::Present]
    );
    assert!(report.failures.is_empty());
}

#[test]
fn record_outcome_keeps_only_failures() {
    let mut failures: Vec<PaintFailure> = Vec::new();
    record_outcome(&mut failures, 0, Ok(()));
    assert!(failures.is_empty());
    record_outcome(&mut failures, 2, Err("broken".to_string()));
    assert_eq!(failures.len(), 1);
    assert_eq!((failures[0].layer, failures[0].message.as_str()), (2, "broken"));
}

#[test]
fn failing_layer_still_presents_frame() {
    let mut ctx: Context<Named> = Context::new(black_options(), 800, 600).unwrap();
    ctx.add_layer(Named { name: "A", fails: true });
    ctx.add_layer(layer("B"));
    let mut target = Recorder::default();
    let report = redraw_once(&mut ctx, &mut target);
    assert_eq!(target.log, vec!["clear 0 0 0 255", "paint A", "paint B", "present"]);
    assert_eq!(target.presents, 1);
    assert_eq!(report.failures.len(), 1);
    assert_eq!(report.failures[0].layer, 0);
    assert!(!ctx.is_dirty());
}
