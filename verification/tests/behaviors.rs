use animate_core::classes_in::In;
use animate_core::classes_out::Out as ClassesOut;
use animate_core::command::{AnimationSpec, Command, DurationChoice, KeyframeSpec};
use animate_core::fade_out::Out as FadeOut;
use animate_core::flip::{Duration as FlipDuration, Flip};
use animate_core::geometry::Rect;
use animate_core::resize::Resize;
use animate_core::snapshot::ElementSnapshot;
use animate_core::trackable::Trackable;
use animate_core::transition_duration::TransitionDuration;
use animate_core::zoom::In as ZoomIn;

fn element_at(rect: Rect) -> ElementSnapshot {
    let mut e = ElementSnapshot::blank();
    e.connected = true;
    e.rect = rect;
    e.transform_origin = "0px 0px".to_string();
    e
}

fn rect(left: i64, top: i64, width: i64, height: i64) -> Rect {
    Rect { left, top, width, height }
}

#[test]
fn flip_animates_the_travel_back_to_rest() {
    // A horizontal move: the element starts at rest and eases in from
    // where it used to be.
    let mut flip = Flip::watch(Trackable::new())
        .duration(FlipDuration::Fixed(120))
        .init_animation(&element_at(rect(0, 0, 50, 50)));
    flip.on_immediate_effect(&element_at(rect(0, 0, 50, 50)));
    let cmds = flip.on_effect(&element_at(rect(100, 0, 50, 50)));
    assert_eq!(
        cmds,
        vec![Command::StartAnimation(AnimationSpec {
            handle: 0,
            keyframes: KeyframeSpec::Translate { dx: -100, dy: 0 },
            duration: DurationChoice::Millis(120),
            delay_ms: 0,
        })]
    );
}

#[test]
fn flip_with_an_unmoved_rectangle_starts_nothing() {
    let at = element_at(rect(10, 20, 30, 40));
    let mut flip = Flip::watch(Trackable::new()).init_animation(&at);
    flip.on_immediate_effect(&at);
    let cmds = flip.on_effect(&at);
    assert_eq!(cmds, Vec::<Command>::new());
}

#[test]
fn flip_cancels_the_stale_animation_before_starting_a_new_one() {
    let mut flip = Flip::watch(Trackable::new()).init_animation(&element_at(rect(0, 0, 9, 9)));
    flip.on_immediate_effect(&element_at(rect(0, 0, 9, 9)));
    let first = flip.on_effect(&element_at(rect(5, 0, 9, 9)));
    assert_eq!(first.len(), 1);
    flip.on_immediate_effect(&element_at(rect(5, 0, 9, 9)));
    let second = flip.on_effect(&element_at(rect(0, 0, 9, 9)));
    assert_eq!(second[0], Command::CancelAnimation(0));
    assert!(matches!(second[1], Command::StartAnimation(_)));
}

#[test]
fn flip_distance_based_duration_carries_the_squared_travel() {
    let mut flip = Flip::watch(Trackable::new()).init_animation(&element_at(rect(0, 0, 9, 9)));
    flip.on_immediate_effect(&element_at(rect(0, 0, 9, 9)));
    let cmds = flip.on_effect(&element_at(rect(3, 4, 9, 9)));
    match &cmds[0] {
        Command::StartAnimation(spec) => {
            assert_eq!(spec.duration, DurationChoice::FromTravelDistanceSq(25));
        }
        other => panic!("unexpected command {other:?}"),
    }
}

#[test]
fn flip_with_a_malformed_origin_abandons_the_animation() {
    let mut flip = Flip::watch(Trackable::new()).init_animation(&element_at(rect(0, 0, 9, 9)));
    flip.on_immediate_effect(&element_at(rect(0, 0, 9, 9)));
    let mut moved = element_at(rect(5, 0, 9, 9));
    moved.transform_origin = "oops".to_string();
    assert_eq!(flip.on_effect(&moved), Vec::<Command>::new());
}

#[test]
fn flip_treats_a_zero_sized_element_as_unmoved() {
    let mut flip = Flip::watch(Trackable::new()).init_animation(&element_at(rect(0, 0, 9, 9)));
    flip.on_immediate_effect(&element_at(rect(0, 0, 9, 9)));
    assert_eq!(flip.on_effect(&element_at(rect(100, 100, 0, 9))), Vec::<Command>::new());
}

#[test]
fn resize_rescales_from_the_prior_dimensions() {
    let mut resize =
        Resize::watch(Trackable::new()).init_animation(&element_at(rect(0, 0, 100, 40)));
    resize.on_immediate_effect(&element_at(rect(0, 0, 100, 40)));
    let cmds = resize.on_effect(&element_at(rect(0, 0, 50, 40)));
    assert_eq!(
        cmds,
        vec![Command::StartAnimation(AnimationSpec {
            handle: 0,
            keyframes: KeyframeSpec::Rescale {
                last_width: 100,
                last_height: 40,
                new_width: 50,
                new_height: 40,
            },
            duration: DurationChoice::FromScale {
                last_width: 100,
                last_height: 40,
                new_width: 50,
                new_height: 40,
            },
            delay_ms: 0,
        })]
    );
}

#[test]
fn resize_with_an_unchanged_size_starts_nothing() {
    let at = element_at(rect(0, 0, 100, 40));
    let mut resize = Resize::watch(Trackable::new()).init_animation(&at);
    resize.on_immediate_effect(&at);
    assert_eq!(resize.on_effect(&element_at(rect(70, 9, 100, 40))), Vec::<Command>::new());
}

#[test]
fn resize_skips_an_invisible_element() {
    let at = element_at(rect(0, 0, 100, 40));
    let mut resize = Resize::watch(Trackable::new()).init_animation(&at);
    resize.on_immediate_effect(&at);
    assert_eq!(resize.on_effect(&element_at(rect(0, 0, 0, 40))), Vec::<Command>::new());
}

#[test]
fn zoom_starts_before_the_element_is_visible() {
    let zoom = ZoomIn::default().duration_ms(150).delay_ms(30);
    let cmds = zoom.on_before_enter();
    assert_eq!(
        cmds,
        vec![Command::StartAnimation(AnimationSpec {
            handle: 0,
            keyframes: KeyframeSpec::ZoomIn,
            duration: DurationChoice::Millis(150),
            delay_ms: 30,
        })]
    );
}

#[test]
fn entry_classes_go_in_before_insertion_and_settle_after() {
    let mut anim = In::default()
        .source("opacity-0")
        .active("duration-150")
        .target("opacity-100")
        .init_animation();
    let before = anim.on_before_enter(&element_at(rect(0, 0, 10, 10)));
    assert_eq!(
        before,
        vec![
            Command::SuppressTransitionDuration,
            Command::AddClasses(vec!["duration-150".to_string()]),
            Command::AddClasses(vec!["opacity-0".to_string()]),
        ]
    );
    // At entry the host has applied the additions.
    let mut entered = element_at(rect(0, 0, 10, 10));
    entered.classes.classes = vec!["duration-150".to_string(), "opacity-0".to_string()];
    let after = anim.on_enter(&entered);
    assert_eq!(after.len(), 4);
    assert!(matches!(after[0], Command::RestoreTransitionDuration(_)));
    assert_eq!(after[1], Command::RemoveClasses(vec!["opacity-0".to_string()]));
    assert_eq!(after[2], Command::AddClasses(vec!["opacity-100".to_string()]));
    assert_eq!(
        after[3],
        Command::RemoveClassesAfter {
            when: TransitionDuration::TransitionEnd,
            classes: vec!["duration-150".to_string(), "opacity-100".to_string()],
        }
    );
}

#[test]
fn entry_without_the_before_step_is_abandoned() {
    let mut anim = In::default().target("x").init_animation();
    assert_eq!(anim.on_enter(&element_at(rect(0, 0, 10, 10))), Vec::<Command>::new());
}

#[test]
fn exit_classes_ride_the_continuation() {
    let mut z = ClassesOut::default()
        .source("opacity-100")
        .active("duration-150")
        .target("opacity-0")
        .duration(TransitionDuration::fixed_ms(150))
        .init_animation(&ElementSnapshot::blank());
    let mut live = element_at(rect(5, 6, 20, 10));
    live.parent_present = true;
    z.record(&live);
    let mut gone = ElementSnapshot::blank();
    gone.parent_present = true;
    gone.parent_connected = true;
    let (cmds, r) = z.on_cleanup(&gone);
    assert!(r.is_ok());
    assert_eq!(
        cmds,
        vec![
            Command::MarkRevived,
            Command::FixPosition { top: 6, left: 5, width: 20, height: 10 },
            Command::AddClasses(vec!["opacity-100".to_string()]),
            Command::AddClasses(vec!["duration-150".to_string()]),
            Command::SuppressTransitionDuration,
            Command::AppendToParent,
            Command::AwaitRevivalTick { delay_ms: 0 },
        ]
    );
    let mut revived = ElementSnapshot::blank();
    revived.classes.classes = vec!["opacity-100".to_string(), "duration-150".to_string()];
    let late = z.on_revival_tick(&revived);
    assert_eq!(late.len(), 5);
    assert!(matches!(late[0], Command::RestoreTransitionDuration(_)));
    assert!(matches!(late[1], Command::RestoreTransitionDuration(_)));
    assert_eq!(late[2], Command::RemoveClasses(vec!["opacity-100".to_string()]));
    assert_eq!(late[3], Command::AddClasses(vec!["opacity-0".to_string()]));
    assert_eq!(late[4], Command::RemoveElementAfter(TransitionDuration::Fixed(150)));
}

#[test]
fn fade_out_rides_the_continuation() {
    let mut z = FadeOut::default().init_animation(&ElementSnapshot::blank());
    let mut live = element_at(rect(1, 2, 3, 4));
    live.parent_present = true;
    z.record(&live);
    let mut gone = ElementSnapshot::blank();
    gone.parent_present = true;
    gone.parent_connected = true;
    let (cmds, r) = z.on_cleanup(&gone);
    assert!(r.is_ok());
    assert!(cmds.contains(&Command::StartAnimation(AnimationSpec {
        handle: 0,
        keyframes: KeyframeSpec::FadeOut,
        duration: DurationChoice::Millis(200),
        delay_ms: 0,
    })));
    let late = z.on_revival_tick(&ElementSnapshot::blank());
    assert_eq!(
        late.last(),
        Some(&Command::RemoveElementAfter(TransitionDuration::AnimationsFinished))
    );
}
