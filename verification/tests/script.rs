use led_snake::pixel::Pixel;
use led_snake::protocol::Action;
use led_snake::script::{plan_fade, plan_tick};

#[test]
fn tick_sends_the_frame_then_flushes_then_pauses() {
    let pixels = vec![Pixel::new_black(3, 16), Pixel::new(5, 16, 1, 2, 3), Pixel::new(6, 16, 4, 5, 6)];
    assert_eq!(
        plan_tick(&pixels, 250),
        vec![
            Action::Send(Pixel::new_black(3, 16)),
            Action::Send(Pixel::new(5, 16, 1, 2, 3)),
            Action::Send(Pixel::new(6, 16, 4, 5, 6)),
            Action::Flush,
            Action::Wait(250),
        ]
    );
}

#[test]
fn tick_without_pixels_still_flushes_and_pauses() {
    assert_eq!(plan_tick(&Vec::new(), 7), vec![Action::Flush, Action::Wait(7)]);
}

#[test]
fn fade_flushes_and_pauses_after_every_pixel() {
    let pixels = vec![Pixel::new_black(5, 16), Pixel::new_black(4, 16)];
    assert_eq!(
        plan_fade(&pixels, 100),
        vec![
            Action::Send(Pixel::new_black(5, 16)),
            Action::Flush,
            Action::Wait(100),
            Action::Send(Pixel::new_black(4, 16)),
            Action::Flush,
            Action::Wait(100),
        ]
    );
}

#[test]
fn fade_of_nothing_is_empty() {
    assert_eq!(plan_fade(&Vec::new(), 100), Vec::new());
}
