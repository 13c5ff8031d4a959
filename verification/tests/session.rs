use post_maker::session::{
    after_clone, button_color, after_delete, after_edit, after_selection, count_quotes, crop_corner,
    next_selection, previous_selection, selection_after_delete, DrawMessage, SavePrompt,
};

#[test]
fn an_edit_is_followed_by_drawing_and_showing() {
    assert_eq!(after_edit(), vec![DrawMessage::RedrawToBuffer, DrawMessage::Flush]);
}

#[test]
fn a_selection_opens_and_checks_the_image() {
    for answer in [SavePrompt::Save, SavePrompt::Discard, SavePrompt::Cancel] {
        assert_eq!(after_selection(true, answer), vec![DrawMessage::Open, DrawMessage::CheckImage]);
    }
}

#[test]
fn unsaved_changes_are_saved_dropped_or_kept_as_the_user_says() {
    assert_eq!(
        after_selection(false, SavePrompt::Save),
        vec![DrawMessage::Save, DrawMessage::Open, DrawMessage::CheckImage]
    );
    assert_eq!(
        after_selection(false, SavePrompt::Discard),
        vec![DrawMessage::Open, DrawMessage::CheckImage]
    );
    assert_eq!(after_selection(false, SavePrompt::Cancel), Vec::<DrawMessage>::new());
}

#[test]
fn cloning_and_deleting_open_the_image_that_is_selected_next() {
    assert_eq!(
        after_clone(),
        vec![DrawMessage::Clone, DrawMessage::Open, DrawMessage::CheckImage]
    );
    assert_eq!(
        after_delete(),
        vec![DrawMessage::Delete, DrawMessage::Open, DrawMessage::CheckImage]
    );
}

#[test]
fn the_corner_asked_for_wins_over_the_stored_one() {
    assert_eq!(crop_corner(Some((1, 2)), Some((3, 4))), Some((1, 2)));
    assert_eq!(crop_corner(Some((1, 2)), None), Some((1, 2)));
    assert_eq!(crop_corner(None, Some((3, 4))), Some((3, 4)));
    assert_eq!(crop_corner(None, None), None);
}

#[test]
fn after_a_delete_the_next_image_takes_the_place() {
    assert_eq!(selection_after_delete(0, 3), Some(0));
    assert_eq!(selection_after_delete(2, 3), Some(2));
    assert_eq!(selection_after_delete(3, 3), Some(2));
    assert_eq!(selection_after_delete(0, 0), None);
    assert_eq!(selection_after_delete(1, 1), Some(0));
}

#[test]
fn selection_wraps_round_at_both_ends() {
    assert_eq!(next_selection(0, 3), 1);
    assert_eq!(next_selection(1, 3), 2);
    assert_eq!(next_selection(2, 3), 0);
    assert_eq!(next_selection(0, 1), 0);
    assert_eq!(previous_selection(0, 3), 2);
    assert_eq!(previous_selection(2, 3), 1);
    assert_eq!(previous_selection(0, 1), 0);
    assert_eq!(next_selection(usize::MAX - 1, usize::MAX), 0);
}

#[test]
fn images_are_counted_by_whether_their_quote_says_anything() {
    let quotes = vec![
        Some("a quote".to_string()),
        None,
        Some("".to_string()),
        Some("   \n".to_string()),
        Some(" x ".to_string()),
    ];
    assert_eq!(count_quotes(&quotes), (2, 3));
    assert_eq!(count_quotes(&Vec::new()), (0, 0));
    assert_eq!(count_quotes(&vec![None, None]), (0, 2));
}

#[test]
fn the_button_shows_the_layer_without_its_alpha() {
    assert_eq!(button_color([20, 22, 25, 197]), (20, 22, 25));
    assert_eq!(button_color([0, 0, 1, 0]), (0, 0, 1));
    assert_eq!(button_color([0, 0, 0, 255]), (1, 0, 0));
    assert_eq!(button_color([0, 0, 0, 0]), (1, 0, 0));
}
