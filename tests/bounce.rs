use ppm_image::shade::{next_step, out_of_bounces, Event, Step};

#[test]
fn spent_budget_gives_black_whatever_the_scene_does() {
    for ev in [Event::Missed, Event::Absorbed, Event::Scattered] {
        assert_eq!(next_step(0, ev), Step::Black);
        assert_eq!(next_step(-7, ev), Step::Black);
    }
    assert!(out_of_bounces(0));
    assert!(out_of_bounces(-1));
    assert!(!out_of_bounces(1));
}

#[test]
fn miss_absorb_and_scatter_steps() {
    assert_eq!(next_step(50, Event::Missed), Step::Background);
    assert_eq!(next_step(50, Event::Absorbed), Step::Black);
    assert_eq!(next_step(50, Event::Scattered), Step::Bounce { depth: 49 });
    assert_eq!(next_step(1, Event::Scattered), Step::Bounce { depth: 0 });
}

#[test]
fn endless_scattering_stops_after_the_budget() {
    let mut depth: i32 = 3;
    let mut bounces = 0;
    let end = loop {
        match next_step(depth, Event::Scattered) {
            Step::Bounce { depth: d } => {
                bounces += 1;
                depth = d;
            }
            other => break other,
        }
    };
    assert_eq!(bounces, 3);
    assert_eq!(end, Step::Black);
}
