use opencosmo_game::panel::TextFrame;

#[test]
fn frames_centre_the_way_the_original_does() {
    // UnfoldTextFrame(2, 9, 28, ...) - episode 1's hint frame.
    let f = TextFrame::new(2, 9, 28, "COSMIC HINT!", "Press any key to exit.");
    assert_eq!(f.left(), 6);
    assert_eq!(f.text_x(), 7);
}

#[test]
fn odd_widths_round_the_same_way_as_the_integer_shift() {
    let f = TextFrame::new(2, 9, 30, "", "");
    assert_eq!(f.left(), 5);
}

#[test]
fn a_frame_places_its_title_footer_and_lines() {
    let f = TextFrame::new(2, 9, 28, "COSMIC HINT!", "Press any key to exit.").text(5, "hello");
    let all = f.placements();
    assert_eq!(
        all,
        vec![
            (14, 3, "COSMIC HINT!".to_string()),
            (9, 9, "Press any key to exit.".to_string()),
            (7, 5, "hello".to_string()),
        ]
    );
    // An empty title or footer is not drawn at all.
    let bare = TextFrame::new(2, 9, 30, "", "").line(1, 2, "x");
    assert_eq!(bare.placements(), vec![(1, 2, "x".to_string())]);
}
