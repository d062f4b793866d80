use img_annotator::img_visualizer::{FolderVisualizer, Steps};
use img_annotator::render_image::{
    fetch_image_path, init_json_obj, AnnotatedStore, Message, Properties, Step, StepAction,
    StepMessage,
};
use img_annotator::text::usize_to_decimal;

fn paths(names: &[&str]) -> Vec<String> {
    names.iter().map(|s| s.to_string()).collect()
}

fn annotation(store: &AnnotatedStore, folder: &str, idx: usize) -> Option<bool> {
    store.annotation_at(&folder.to_string(), idx)
}

fn window(names: &[&str]) -> FolderVisualizer {
    FolderVisualizer::new("sample_folder".to_string(), paths(names))
}

#[test]
fn init_json_obj_records_each_image_in_order() {
    let store = init_json_obj("dir".to_string(), paths(&["dir/a.png", "dir/b.png"]));
    assert_eq!(store.image_to_properties_map.len(), 1);
    let (folder, props) = &store.image_to_properties_map[0];
    assert_eq!(folder, "dir");
    assert_eq!(props.len(), 2);
    for (i, p) in props.iter().enumerate() {
        assert_eq!(p.index, i);
        assert_eq!(p.annotation, None);
        assert_eq!(p.comments, None);
    }
    assert_eq!(props[0].image_path, "dir/a.png");
    assert_eq!(props[1].image_path, "dir/b.png");
}

#[test]
fn init_json_obj_of_empty_folder() {
    let store = init_json_obj("empty".to_string(), Vec::new());
    assert_eq!(store.image_to_properties_map.len(), 1);
    assert_eq!(store.image_to_properties_map[0].0, "empty");
    assert!(store.image_to_properties_map[0].1.is_empty());
}

#[test]
fn step_titles_and_continuation() {
    assert_eq!(Step::WelcomeWithFolderChoose.title(), "Welcome");
    assert_eq!(Step::Images.title(), "Images");
    assert_eq!(Step::End.title(), "End");
    assert!(Step::WelcomeWithFolderChoose.can_continue());
    assert!(Step::Images.can_continue());
    assert!(!Step::End.can_continue());
}

#[test]
fn new_steps_start_on_the_welcome_page() {
    let store = init_json_obj("f".to_string(), paths(&["a"]));
    let steps = Steps::new("f".to_string(), 0, paths(&["a"]), vec![], store);
    assert_eq!(steps.title(), "Welcome");
    assert!(!steps.has_previous());
    assert!(steps.can_continue());
    assert_eq!(steps.curr_idx(), 0);
    assert!(steps.correct_items().is_empty());
    assert!(!steps.modified());
    assert!(!steps.btn_status());
}

#[test]
fn pages_advance_to_the_end_and_no_further() {
    let mut w = window(&["a", "b"]);
    assert_eq!(w.update(Message::NextPressed), StepAction::Nothing);
    assert_eq!(w.steps().title(), "Images");
    w.update(Message::NextPressed);
    assert_eq!(w.steps().title(), "End");
    assert!(!w.steps().can_continue());
    w.update(Message::NextPressed);
    assert_eq!(w.steps().title(), "End");
}

#[test]
fn pages_go_back_to_the_start_and_no_further() {
    let mut w = window(&["a"]);
    w.update(Message::BackPressed);
    assert_eq!(w.steps().title(), "Welcome");
    w.update(Message::NextPressed);
    w.update(Message::NextPressed);
    w.update(Message::BackPressed);
    assert_eq!(w.steps().title(), "Images");
    w.update(Message::BackPressed);
    assert_eq!(w.steps().title(), "Welcome");
    assert!(!w.steps().has_previous());
}

#[test]
fn page_round_trip() {
    let mut s = Steps::new("f".to_string(), 0, paths(&["a"]), vec![None], init_json_obj("f".to_string(), paths(&["a"])));
    s.advance();
    s.go_back();
    assert_eq!(s.title(), "Welcome");
    s.advance();
    s.advance();
    s.go_back();
    s.advance();
    assert_eq!(s.title(), "End");
}

#[test]
fn window_opens_folder_with_nothing_selected() {
    let w = window(&["a.png", "b.png", "c.png"]);
    let s = w.steps();
    assert_eq!(s.curr_idx(), 0);
    assert_eq!(s.correct_items(), &vec![None, None, None]);
    assert_eq!(s.folder_path(), "sample_folder");
    assert_eq!(s.all_images(), &paths(&["a.png", "b.png", "c.png"]));
    for i in 0..3 {
        assert_eq!(annotation(s.json_obj(), "sample_folder", i), None);
    }
    assert_eq!(s.json_obj().image_to_properties_map[0].1[2].image_path, "c.png");
}

#[test]
fn window_title_names_the_image_index() {
    let mut w = window(&["a", "b", "c", "d", "e", "f", "g", "h", "i", "j", "k", "l"]);
    assert_eq!(w.title(), "Image 0");
    for _ in 0..11 {
        w.update(Message::StepMessage(StepMessage::Next()));
    }
    assert_eq!(w.title(), "Image 11");
}

#[test]
fn decimal_text_of_numbers() {
    assert_eq!(usize_to_decimal(0), "0");
    assert_eq!(usize_to_decimal(7), "7");
    assert_eq!(usize_to_decimal(10), "10");
    assert_eq!(usize_to_decimal(4096), "4096");
    assert_eq!(usize_to_decimal(usize::MAX), usize::MAX.to_string());
}

#[test]
fn mark_is_shown_and_recorded() {
    let mut w = window(&["a", "b"]);
    w.update(Message::StepMessage(StepMessage::Next()));
    w.update(Message::StepMessage(StepMessage::MarkAsCorrect()));
    let s = w.steps();
    assert_eq!(s.curr_idx(), 1);
    assert_eq!(s.correct_items(), &vec![None, Some(true)]);
    assert_eq!(annotation(s.json_obj(), "sample_folder", 1), Some(true));
    assert_eq!(annotation(s.json_obj(), "sample_folder", 0), None);
    assert_eq!(Step::selection_label(1, s.correct_items()), "Correct");
    assert_eq!(Step::selection_label(0, s.correct_items()), "Not selected yet");
}

#[test]
fn mark_incorrect_then_reset() {
    let mut w = window(&["a"]);
    w.update(Message::StepMessage(StepMessage::MarkAsIncorrect()));
    assert_eq!(w.steps().correct_items(), &vec![Some(false)]);
    assert_eq!(annotation(w.steps().json_obj(), "sample_folder", 0), Some(false));
    assert_eq!(Step::selection_label(0, w.steps().correct_items()), "Incorrect");
    w.update(Message::StepMessage(StepMessage::ResetSelection()));
    assert_eq!(w.steps().correct_items(), &vec![None]);
    assert_eq!(annotation(w.steps().json_obj(), "sample_folder", 0), None);
}

#[test]
fn mark_out_of_range_changes_nothing() {
    let mut w = window(&["a"]);
    w.update(Message::StepMessage(StepMessage::Next()));
    assert_eq!(w.steps().curr_idx(), 1);
    w.update(Message::StepMessage(StepMessage::MarkAsCorrect()));
    assert_eq!(w.steps().correct_items(), &vec![None]);
    assert_eq!(annotation(w.steps().json_obj(), "sample_folder", 0), None);
    assert_eq!(Step::selection_label(1, w.steps().correct_items()), "No Image");
}

#[test]
fn mark_is_idempotent() {
    let mut w = window(&["a", "b"]);
    w.update(Message::StepMessage(StepMessage::MarkAsCorrect()));
    let once = (w.steps().correct_items().clone(), annotation(w.steps().json_obj(), "sample_folder", 0));
    w.update(Message::StepMessage(StepMessage::MarkAsCorrect()));
    let twice = (w.steps().correct_items().clone(), annotation(w.steps().json_obj(), "sample_folder", 0));
    assert_eq!(once, twice);
}

#[test]
fn next_then_previous_returns() {
    let mut w = window(&["a", "b", "c"]);
    w.update(Message::StepMessage(StepMessage::MarkAsCorrect()));
    w.update(Message::StepMessage(StepMessage::Next()));
    w.update(Message::StepMessage(StepMessage::Previous()));
    let s = w.steps();
    assert_eq!(s.curr_idx(), 0);
    assert_eq!(s.correct_items(), &vec![Some(true), None, None]);
    assert_eq!(annotation(s.json_obj(), "sample_folder", 0), Some(true));
    assert_eq!(annotation(s.json_obj(), "sample_folder", 1), None);
}

#[test]
fn step_update_answers_messages() {
    let store = init_json_obj("f".to_string(), paths(&["a", "b"]));
    let folder = "f".to_string();
    let mut idx: usize = 0;
    let mut items = vec![None, None];
    let (ann, act) = Step::Images.update(StepMessage::MarkAsIncorrect(), &mut idx, &folder, &store, &mut items);
    assert_eq!((ann, act), (Some(false), StepAction::Nothing));
    assert_eq!(items, vec![Some(false), None]);
    let (ann, act) = Step::Images.update(StepMessage::Next(), &mut idx, &folder, &store, &mut items);
    assert_eq!(idx, 1);
    assert_eq!((ann, act), (None, StepAction::Nothing));
    let (_, act) = Step::Images.update(StepMessage::Export(), &mut idx, &folder, &store, &mut items);
    assert_eq!(act, StepAction::ExportJson);
    let (_, act) = Step::WelcomeWithFolderChoose.update(StepMessage::ChooseFolderPath(), &mut idx, &folder, &store, &mut items);
    assert_eq!(act, StepAction::PickFolder);
    assert_eq!(idx, 1);
    assert_eq!(items, vec![Some(false), None]);
}

#[test]
fn step_update_reads_stored_annotation() {
    let mut store = init_json_obj("f".to_string(), paths(&["a", "b"]));
    store.set_annotation(&"f".to_string(), 1, Some(true));
    let mut idx: usize = 1;
    let mut items = vec![None, None];
    let (ann, _) = Step::Images.update(StepMessage::Previous(), &mut idx, &"f".to_string(), &store, &mut items);
    assert_eq!(ann, Some(true));
    assert_eq!(idx, 0);
}

#[test]
fn export_and_choose_keep_session() {
    let mut w = window(&["a", "b"]);
    w.update(Message::StepMessage(StepMessage::MarkAsCorrect()));
    assert_eq!(w.update(Message::StepMessage(StepMessage::Export())), StepAction::ExportJson);
    assert_eq!(w.update(Message::StepMessage(StepMessage::ChooseFolderPath())), StepAction::PickFolder);
    let s = w.steps();
    assert_eq!(s.curr_idx(), 0);
    assert_eq!(s.correct_items(), &vec![Some(true), None]);
    assert_eq!(annotation(s.json_obj(), "sample_folder", 0), Some(true));
}

#[test]
fn folder_chosen_opens_a_fresh_session() {
    let mut w = window(&["a", "b"]);
    w.update(Message::StepMessage(StepMessage::MarkAsCorrect()));
    w.update(Message::StepMessage(StepMessage::Next()));
    w.folder_chosen(Some(("other".to_string(), paths(&["x", "y", "z"]))));
    let s = w.steps();
    assert!(s.modified());
    assert!(s.btn_status());
    assert_eq!(s.curr_idx(), 0);
    assert_eq!(s.title(), "Welcome");
    assert_eq!(s.folder_path(), "other");
    assert_eq!(s.correct_items(), &vec![None, None, None]);
    assert_eq!(s.json_obj().image_to_properties_map.len(), 1);
    assert_eq!(s.json_obj().image_to_properties_map[0].0, "other");
    assert_eq!(annotation(s.json_obj(), "sample_folder", 0), None);
}

#[test]
fn folder_not_chosen_keeps_session() {
    let mut w = window(&["a", "b"]);
    w.folder_chosen(Some(("other".to_string(), paths(&["x"]))));
    w.update(Message::StepMessage(StepMessage::MarkAsIncorrect()));
    w.folder_chosen(None);
    let s = w.steps();
    assert!(!s.btn_status());
    assert!(s.modified());
    assert_eq!(s.folder_path(), "other");
    assert_eq!(s.correct_items(), &vec![Some(false)]);
}

#[test]
fn image_availability() {
    let mut w = window(&["a", "b"]);
    assert!(w.steps().is_next_image_available());
    assert!(!w.steps().is_previous_image_available());
    w.update(Message::StepMessage(StepMessage::Next()));
    assert!(!w.steps().is_next_image_available());
    assert!(w.steps().is_previous_image_available());
    let empty = window(&[]);
    assert!(!empty.steps().is_next_image_available());
}

#[test]
fn fetch_image_path_in_and_out_of_range() {
    let imgs = paths(&["a.png", "b.png"]);
    assert_eq!(fetch_image_path(&imgs, 1), "b.png");
    assert_eq!(fetch_image_path(&imgs, 2), "");
    assert_eq!(fetch_image_path(&Vec::new(), 0), "");
}

#[test]
fn create_info_texts() {
    let info = Step::create_info(3, 12, "pics", &vec![None, None, None, Some(false)]);
    assert_eq!(info.curr_idx, "curr_idx: 3");
    assert_eq!(info.total_images, "Total Images: 12");
    assert_eq!(info.folder_path, "Folder Path: pics");
    assert_eq!(info.current_selection, "Current selection: Incorrect");
    let none = Step::create_info(0, 0, "", &vec![]);
    assert_eq!(none.current_selection, "Current selection: No Image");
}

#[test]
fn set_annotation_on_missing_folder_changes_nothing() {
    let mut store = init_json_obj("f".to_string(), paths(&["a"]));
    store.set_annotation(&"g".to_string(), 0, Some(true));
    store.set_annotation(&"f".to_string(), 5, Some(true));
    assert_eq!(annotation(&store, "f", 0), None);
    assert_eq!(annotation(&store, "g", 0), None);
}

#[test]
fn each_folder_has_one_entry() {
    let mut w = window(&["a", "b"]);
    w.update(Message::StepMessage(StepMessage::MarkAsCorrect()));
    w.update(Message::StepMessage(StepMessage::Next()));
    w.update(Message::StepMessage(StepMessage::MarkAsIncorrect()));
    assert_eq!(w.steps().json_obj().image_to_properties_map.len(), 1);
    w.folder_chosen(Some(("sample_folder".to_string(), paths(&["c"]))));
    w.update(Message::StepMessage(StepMessage::ResetSelection()));
    w.folder_chosen(None);
    let store = w.steps().json_obj();
    assert_eq!(store.image_to_properties_map.len(), 1);
    assert_eq!(store.image_to_properties_map[0].0, "sample_folder");
    let p: &Properties = &store.image_to_properties_map[0].1[0];
    assert_eq!(p.image_path, "c");
    assert_eq!(p.annotation, None);
}

#[test]
fn update_ignores_page_shown() {
    let mut on_welcome = window(&["a", "b"]);
    let mut on_end = window(&["a", "b"]);
    on_end.update(Message::NextPressed);
    on_end.update(Message::NextPressed);
    for m in [StepMessage::MarkAsCorrect(), StepMessage::Next(), StepMessage::MarkAsIncorrect()] {
        let a = on_welcome.update(Message::StepMessage(m.clone()));
        let b = on_end.update(Message::StepMessage(m));
        assert_eq!(a, b);
    }
    assert_eq!(on_welcome.steps().title(), "Welcome");
    assert_eq!(on_end.steps().title(), "End");
    assert_eq!(on_welcome.steps().curr_idx(), on_end.steps().curr_idx());
    assert_eq!(on_welcome.steps().correct_items(), on_end.steps().correct_items());
    for i in 0..2 {
        assert_eq!(
            annotation(on_welcome.steps().json_obj(), "sample_folder", i),
            annotation(on_end.steps().json_obj(), "sample_folder", i)
        );
    }
}

fn assert_in_sync(w: &FolderVisualizer) {
    let s = w.steps();
    let folder = s.folder_path().clone();
    let items = s.correct_items();
    let (_, props) = s
        .json_obj()
        .image_to_properties_map
        .iter()
        .find(|(f, _)| *f == folder)
        .unwrap();
    assert_eq!(props.len(), items.len());
    for (p, item) in props.iter().zip(items.iter()) {
        assert_eq!(p.annotation, *item);
    }
}

#[test]
fn selections_and_store_agree_after_any_messages() {
    let mut w = window(&["a", "b", "c"]);
    assert_in_sync(&w);
    let script = vec![
        Message::NextPressed,
        Message::StepMessage(StepMessage::MarkAsCorrect()),
        Message::StepMessage(StepMessage::Next()),
        Message::StepMessage(StepMessage::MarkAsIncorrect()),
        Message::StepMessage(StepMessage::Next()),
        Message::StepMessage(StepMessage::Next()),
        Message::StepMessage(StepMessage::MarkAsCorrect()),
        Message::StepMessage(StepMessage::Previous()),
        Message::StepMessage(StepMessage::Previous()),
        Message::StepMessage(StepMessage::ResetSelection()),
        Message::BackPressed,
        Message::StepMessage(StepMessage::Export()),
    ];
    for m in script {
        w.update(m);
        assert_in_sync(&w);
    }
    assert_eq!(w.steps().correct_items(), &vec![Some(true), None, None]);
    w.folder_chosen(Some(("d".to_string(), paths(&["p", "q"]))));
    assert_in_sync(&w);
    w.folder_chosen(None);
    assert_in_sync(&w);
}
