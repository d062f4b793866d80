//! What holds of the session across its operations.

use vstd::prelude::*;

use crate::text::{decimal, digit_char};

use crate::img_visualizer::{opened, window_title, window_updated, StepsView};
use crate::render_image::{
    annotation_of, distinct_folders, first_entry, fresh_properties, lookup, message_allowed,
    page_can_continue, page_title, same_folders, selection_label, step_transition, with_annotation,
    Message, PropertiesView, Step, StepAction, StepMessage,
};

verus! {

/// The entry found first for a key holds that key.
proof fn lemma_first_entry_has_key(entries: Seq<(Seq<char>, Seq<PropertiesView>)>, key: Seq<char>)
    ensures
        first_entry(entries, key) <= entries.len(),
        first_entry(entries, key) < entries.len() ==> entries[first_entry(entries, key) as int].0
            == key,
        forall|j: int| 0 <= j < first_entry(entries, key) ==> entries[j].0 != key,
    decreases entries.len(),
{
    if entries.len() > 0 && entries[0].0 != key {
        let rest = entries.drop_first();
        lemma_first_entry_has_key(rest, key);
        assert forall|j: int| 0 <= j < first_entry(entries, key) implies entries[j].0 != key by {
            if j > 0 {
                assert(entries[j] == rest[j - 1]);
            }
        }
    }
}

/// Two stores with the same keys in the same places find the same entry
/// first for every key.
proof fn lemma_first_entry_same_keys(
    a: Seq<(Seq<char>, Seq<PropertiesView>)>,
    b: Seq<(Seq<char>, Seq<PropertiesView>)>,
    key: Seq<char>,
)
    requires
        a.len() == b.len(),
        forall|j: int| 0 <= j < a.len() ==> a[j].0 == b[j].0,
    ensures
        first_entry(a, key) == first_entry(b, key),
    decreases a.len(),
{
    if a.len() > 0 && a[0].0 != key {
        let (ra, rb) = (a.drop_first(), b.drop_first());
        assert forall|j: int| 0 <= j < ra.len() implies ra[j].0 == rb[j].0 by {
            assert(ra[j] == a[j + 1] && rb[j] == b[j + 1]);
        }
        lemma_first_entry_same_keys(ra, rb, key);
    }
}

/// Recording for an image the annotation that the store already holds for
/// it leaves the store as it is.
pub proof fn law_rewrite_is_identity(
    entries: Seq<(Seq<char>, Seq<PropertiesView>)>,
    key: Seq<char>,
    idx: int,
)
    ensures
        with_annotation(entries, key, idx, annotation_of(entries, key, idx)) == entries,
{
    lemma_first_entry_has_key(entries, key);
    let i = first_entry(entries, key) as int;
    if i < entries.len() && 0 <= idx < entries[i].1.len() {
        let ps = entries[i].1;
        assert(ps.update(idx, PropertiesView { annotation: ps[idx].annotation, ..ps[idx] }) =~= ps);
        assert(entries.update(i, (key, ps)) =~= entries);
    }
}

/// What is recorded for an image is read back for it, and for every other
/// image and folder the store reads as before.
pub proof fn law_read_after_write(
    entries: Seq<(Seq<char>, Seq<PropertiesView>)>,
    key: Seq<char>,
    idx: int,
    a: Option<bool>,
    other_key: Seq<char>,
    other_idx: int,
)
    requires
        lookup(entries, key) matches Some(ps) && 0 <= idx < ps.len(),
        other_key != key || other_idx != idx,
    ensures
        annotation_of(with_annotation(entries, key, idx, a), key, idx) == a,
        annotation_of(with_annotation(entries, key, idx, a), other_key, other_idx)
            == annotation_of(entries, other_key, other_idx),
        lookup(with_annotation(entries, key, idx, a), key) matches Some(qs) && qs.len()
            == lookup(entries, key)->0.len(),
{
    lemma_first_entry_has_key(entries, key);
    let w = with_annotation(entries, key, idx, a);
    assert forall|j: int| 0 <= j < entries.len() implies entries[j].0 == w[j].0 by {}
    lemma_first_entry_same_keys(entries, w, key);
    lemma_first_entry_same_keys(entries, w, other_key);
    lemma_first_entry_has_key(entries, other_key);
}

/// The selections shown and the annotations recorded for the folder under
/// session agree, image by image.
pub open spec fn in_sync(v: StepsView) -> bool {
    match lookup(v.store, v.folder_path) {
        Some(ps) => {
            &&& ps.len() == v.correct_items.len()
            &&& forall|i: int| 0 <= i < ps.len() ==> ps[i].annotation == v.correct_items[i]
        },
        None => false,
    }
}

/// A folder just opened has its images in the store, in order, each with its
/// index and path and no annotation, and no image selected; its selections
/// and its annotations agree.
pub proof fn law_opened_folder(folder_path: Seq<char>, images: Seq<Seq<char>>)
    requires
        images.len() <= usize::MAX,
    ensures
        opened(folder_path, images).wf(),
        lookup(opened(folder_path, images).store, folder_path) == Some(fresh_properties(images)),
        forall|i: int|
            0 <= i < images.len() ==> {
                &&& #[trigger] fresh_properties(images)[i].index == i
                &&& fresh_properties(images)[i].image_path == images[i]
                &&& fresh_properties(images)[i].comments == None::<Seq<char>>
                &&& annotation_of(opened(folder_path, images).store, folder_path, i) == None::<bool>
                &&& opened(folder_path, images).correct_items[i] == None::<bool>
            },
        in_sync(opened(folder_path, images)),
{
    let v = opened(folder_path, images);
    assert(first_entry(v.store, folder_path) == 0);
    assert forall|i: int| 0 <= i < images.len() implies #[trigger] fresh_properties(images)[i].index
        == i by {
        assert(i <= usize::MAX);
    }
}

/// A mark (or the removal of a mark) on an image in range is shown for that
/// image and recorded in the store for it, the current image stays the same,
/// and the selections of the other images stay as they were.
pub proof fn law_mark_is_shown_and_recorded(v: StepsView, msg: StepMessage, value: Option<bool>)
    requires
        v.wf(),
        v.curr_idx < v.correct_items.len(),
        (msg is MarkAsCorrect && value == Some(true)) || (msg is MarkAsIncorrect && value == Some(
            false,
        )) || (msg is ResetSelection && value == None::<bool>),
    ensures
        v.updated(msg).0.curr_idx == v.curr_idx,
        v.updated(msg).0.correct_items[v.curr_idx as int] == value,
        forall|j: int|
            0 <= j < v.correct_items.len() && j != v.curr_idx ==> v.updated(msg).0.correct_items[j]
                == v.correct_items[j],
        v.updated(msg).0.correct_items.len() == v.correct_items.len(),
        selection_label(v.curr_idx as int, v.updated(msg).0.correct_items) == (match value {
            Some(true) => "Correct"@,
            Some(false) => "Incorrect"@,
            None => "Not selected yet"@,
        }),
        (lookup(v.store, v.folder_path) matches Some(ps) && v.curr_idx < ps.len())
            ==> annotation_of(v.updated(msg).0.store, v.folder_path, v.curr_idx as int) == value,
        v.updated(msg).1 == StepAction::Nothing,
        v.updated(msg).0.current == v.current,
{
    if lookup(v.store, v.folder_path) matches Some(ps) && v.curr_idx < ps.len() {
        law_read_after_write(v.store, v.folder_path, v.curr_idx as int, value, v.folder_path, -1);
    }
}

/// Marking an image twice in the same way is the same as marking it once.
pub proof fn law_mark_is_idempotent(v: StepsView, msg: StepMessage)
    requires
        msg is MarkAsCorrect || msg is MarkAsIncorrect || msg is ResetSelection,
    ensures
        v.updated(msg).0.updated(msg) == v.updated(msg),
{
    let w = v.updated(msg).0;
    law_rewrite_is_identity(w.store, w.folder_path, w.curr_idx as int);
    if v.curr_idx < v.correct_items.len() {
        let value = w.correct_items[v.curr_idx as int];
        assert(w.correct_items.update(v.curr_idx as int, value) =~= w.correct_items);
        if lookup(v.store, v.folder_path) matches Some(ps) && v.curr_idx < ps.len() {
            law_read_after_write(v.store, v.folder_path, v.curr_idx as int, value, v.folder_path, -1);
        } else {
            law_rewrite_is_identity(v.store, v.folder_path, v.curr_idx as int);
        }
    } else {
        law_rewrite_is_identity(v.store, v.folder_path, v.curr_idx as int);
    }
}

/// Going to the next image and back to the previous one (or back and then
/// on) returns to the session as it was.
pub proof fn law_next_then_previous(v: StepsView)
    requires
        v.curr_idx <= usize::MAX,
    ensures
        v.curr_idx < usize::MAX ==> message_allowed(StepMessage::Previous(), v.updated(StepMessage::Next()).0.curr_idx)
            && v.updated(StepMessage::Next()).0.updated(StepMessage::Previous()).0 == v,
        v.curr_idx > 0 ==> message_allowed(StepMessage::Next(), v.updated(StepMessage::Previous()).0.curr_idx)
            && v.updated(StepMessage::Previous()).0.updated(StepMessage::Next()).0 == v,
{
    law_rewrite_is_identity(v.store, v.folder_path, v.curr_idx as int);
    let n = v.updated(StepMessage::Next()).0;
    law_rewrite_is_identity(n.store, n.folder_path, n.curr_idx as int);
    let p = v.updated(StepMessage::Previous()).0;
    law_rewrite_is_identity(p.store, p.folder_path, p.curr_idx as int);
}

/// Exporting and asking for a folder change nothing in the session; they only
/// ask the world outside for the export or the folder choice.
pub proof fn law_requests_keep_session(v: StepsView)
    ensures
        v.updated(StepMessage::Export()) == (v, StepAction::ExportJson),
        v.updated(StepMessage::ChooseFolderPath()) == (v, StepAction::PickFolder),
{
    law_rewrite_is_identity(v.store, v.folder_path, v.curr_idx as int);
}

/// Moving to the next page and back again, or back and on again, returns to
/// the page that was shown.
pub proof fn law_page_round_trip(v: StepsView)
    requires
        v.wf(),
    ensures
        v.can_continue() ==> v.advanced().gone_back() == v,
        v.has_previous() ==> v.gone_back().advanced() == v,
        v.advanced().wf() && v.gone_back().wf(),
{
}

/// The last page cannot be left forwards and the first cannot be left
/// backwards; on every other page both moves are possible.
pub proof fn law_page_bounds(v: StepsView)
    requires
        v.wf(),
    ensures
        v.can_continue() <==> v.current + 1 < 3,
        v.has_previous() <==> v.current > 0,
{
}

/// Every message of the page keeps the selections and the annotations of the
/// folder in agreement.
pub proof fn law_update_keeps_in_sync(v: StepsView, msg: StepMessage)
    requires
        in_sync(v),
    ensures
        in_sync(v.updated(msg).0),
{
    let w = v.updated(msg).0;
    let ps = lookup(v.store, v.folder_path)->0;
    if v.curr_idx < v.correct_items.len() && (msg is MarkAsCorrect || msg is MarkAsIncorrect
        || msg is ResetSelection) {
        let value = w.correct_items[v.curr_idx as int];
        law_read_after_write(v.store, v.folder_path, v.curr_idx as int, value, v.folder_path, -1);
        let qs = lookup(w.store, w.folder_path)->0;
        assert forall|i: int| 0 <= i < qs.len() implies qs[i].annotation == w.correct_items[i] by {
            if i != v.curr_idx {
                law_read_after_write(v.store, v.folder_path, v.curr_idx as int, value, v.folder_path, i);
                assert(annotation_of(w.store, w.folder_path, i) == annotation_of(v.store, v.folder_path, i));
            } else {
                assert(annotation_of(w.store, w.folder_path, i) == value);
            }
        }
    } else {
        law_rewrite_is_identity(v.store, v.folder_path, v.curr_idx as int);
        if msg is MarkAsCorrect || msg is MarkAsIncorrect || msg is ResetSelection {
            assert(annotation_of(v.store, v.folder_path, v.curr_idx as int) == None::<bool>);
        }
        assert(w.store == v.store);
        assert(w.correct_items == v.correct_items);
    }
}

/// A folder choice keeps the selections and the annotations in agreement:
/// a chosen folder is annotated afresh, with the first image current, on the
/// first page; a failed choice changes nothing but the failure mark.
pub proof fn law_folder_choice(v: StepsView, picked: Option<(Seq<char>, Seq<Seq<char>>)>)
    requires
        in_sync(v),
        picked matches Some((p, imgs)) ==> imgs.len() <= usize::MAX,
    ensures
        in_sync(v.folder_chosen(picked)),
        v.folder_chosen(picked).btn_status == picked is Some,
        picked matches Some((p, imgs)) ==> v.folder_chosen(picked) == (StepsView {
            modified: true,
            btn_status: true,
            ..opened(p, imgs)
        }),
        picked is None ==> v.folder_chosen(picked) == (StepsView { btn_status: false, ..v }),
{
    if let Some((p, imgs)) = picked {
        law_opened_folder(p, imgs);
    }
}

/// The page buttons change only the page that is shown.
pub proof fn law_navigation_keeps_session(v: StepsView)
    ensures
        v.advanced() == (StepsView { current: v.advanced().current, ..v }),
        v.gone_back() == (StepsView { current: v.gone_back().current, ..v }),
        in_sync(v) ==> in_sync(v.advanced()) && in_sync(v.gone_back()),
{
}

/// Recording an annotation keeps the folders of the store, in their places.
pub proof fn law_annotation_keeps_folders(
    entries: Seq<(Seq<char>, Seq<PropertiesView>)>,
    key: Seq<char>,
    idx: int,
    a: Option<bool>,
)
    ensures
        same_folders(entries, with_annotation(entries, key, idx, a)),
        distinct_folders(entries) ==> distinct_folders(with_annotation(entries, key, idx, a)),
{
    lemma_first_entry_has_key(entries, key);
}

/// In a store where no folder has two entries, the entry found for a folder
/// is its only entry: the store reads as a map from folder path to the
/// properties of its images.
pub proof fn law_distinct_lookup(
    entries: Seq<(Seq<char>, Seq<PropertiesView>)>,
    key: Seq<char>,
    i: int,
)
    requires
        distinct_folders(entries),
        0 <= i < entries.len(),
        entries[i].0 == key,
    ensures
        lookup(entries, key) == Some(entries[i].1),
{
    lemma_first_entry_has_key(entries, key);
    let f = first_entry(entries, key) as int;
    if f < i {
        assert(entries[f].0 == key);
    }
}

/// A folder just opened has one entry in the store; every message of the
/// page and every folder choice keeps each folder to one entry.
pub proof fn law_distinct_folders_kept(
    v: StepsView,
    msg: StepMessage,
    picked: Option<(Seq<char>, Seq<Seq<char>>)>,
    folder_path: Seq<char>,
    images: Seq<Seq<char>>,
)
    ensures
        distinct_folders(opened(folder_path, images).store),
        distinct_folders(v.store) ==> distinct_folders(v.updated(msg).0.store),
        distinct_folders(v.store) ==> distinct_folders(v.folder_chosen(picked).store),
        distinct_folders(v.store) ==> distinct_folders(v.advanced().store)
            && distinct_folders(v.gone_back().store),
{
    let t = v.updated(msg);
    law_annotation_keeps_folders(
        v.store,
        v.folder_path,
        v.curr_idx as int,
        annotation_of(v.store, v.folder_path, v.curr_idx as int),
    );
    if msg is MarkAsCorrect || msg is MarkAsIncorrect || msg is ResetSelection {
        law_annotation_keeps_folders(v.store, v.folder_path, v.curr_idx as int, Some(true));
        law_annotation_keeps_folders(v.store, v.folder_path, v.curr_idx as int, Some(false));
        law_annotation_keeps_folders(v.store, v.folder_path, v.curr_idx as int, None);
    }
}

/// A message of the page is answered the same whichever page is shown, and
/// it leaves the page shown as it was.
pub proof fn law_update_ignores_page(v: StepsView, w: StepsView, msg: StepMessage)
    requires
        w == (StepsView { current: w.current, ..v }),
    ensures
        w.updated(msg).0 == (StepsView { current: w.current, ..v.updated(msg).0 }),
        w.updated(msg).1 == v.updated(msg).1,
        v.updated(msg).0.current == v.current,
{
}

/// Every operation keeps the three pages in order and the page shown among
/// them.
pub proof fn law_pages_kept(
    v: StepsView,
    msg: StepMessage,
    picked: Option<(Seq<char>, Seq<Seq<char>>)>,
)
    requires
        v.wf(),
    ensures
        v.advanced().wf(),
        v.gone_back().wf(),
        v.updated(msg).0.wf(),
        v.folder_chosen(picked).wf(),
{
}

/// Only the export message asks for the export, only the folder message
/// asks for a folder; every other message of the page (moving between
/// images, marking) asks nothing of the world outside. The same holds of a
/// session, and of the window, whose page buttons ask nothing either.
pub proof fn law_only_requests_ask_outside(
    v: StepsView,
    msg: StepMessage,
    idx: nat,
    items: Seq<Option<bool>>,
    shown: Option<bool>,
)
    ensures
        (step_transition(msg, idx, items, shown).3 == StepAction::ExportJson) <==> msg is Export,
        (step_transition(msg, idx, items, shown).3 == StepAction::PickFolder)
            <==> msg is ChooseFolderPath,
        (step_transition(msg, idx, items, shown).3 == StepAction::Nothing) <==> !(msg is Export
            || msg is ChooseFolderPath),
        (v.updated(msg).1 == StepAction::ExportJson) <==> msg is Export,
        (v.updated(msg).1 == StepAction::PickFolder) <==> msg is ChooseFolderPath,
        (v.updated(msg).1 == StepAction::Nothing) <==> !(msg is Export || msg is ChooseFolderPath),
        window_updated(v, Message::NextPressed).1 == StepAction::Nothing,
        window_updated(v, Message::BackPressed).1 == StepAction::Nothing,
        window_updated(v, Message::StepMessage(msg)).1 == v.updated(msg).1,
{
}

/// Moving to the next image makes the following image current and changes
/// nothing else; moving to the previous image makes the one before current
/// and changes nothing else.
pub proof fn law_image_moves(v: StepsView)
    ensures
        v.updated(StepMessage::Next()).0 == (StepsView { curr_idx: v.curr_idx + 1, ..v }),
        v.curr_idx > 0 ==> v.updated(StepMessage::Previous()).0 == (StepsView {
            curr_idx: (v.curr_idx - 1) as nat,
            ..v
        }),
{
    law_rewrite_is_identity(v.store, v.folder_path, v.curr_idx as int);
}

/// The window's page buttons change only the page shown: "Next" goes one
/// page on, up to the last page, "Back" one page back, down to the first;
/// the image index, the selections and the store stay as they were. A
/// message of the page is answered as the session answers it.
pub proof fn law_window_buttons(v: StepsView, msg: StepMessage)
    requires
        v.wf(),
    ensures
        window_updated(v, Message::NextPressed).0 == (StepsView {
            current: if v.current < 2 {
                v.current + 1
            } else {
                v.current
            },
            ..v
        }),
        window_updated(v, Message::BackPressed).0 == (StepsView {
            current: if v.current > 0 {
                (v.current - 1) as nat
            } else {
                v.current
            },
            ..v
        }),
        window_updated(v, Message::StepMessage(msg)) == v.updated(msg),
{
}

/// Recording an annotation changes nothing but one annotation: the folders,
/// the number of images of each, and the index, path and comments of every
/// image stay as they were; only the annotation of the image named (in the
/// entry found for its folder) may change, and it is then read back.
pub proof fn law_annotation_changes_only_annotation(
    entries: Seq<(Seq<char>, Seq<PropertiesView>)>,
    key: Seq<char>,
    idx: int,
    a: Option<bool>,
)
    ensures
        with_annotation(entries, key, idx, a).len() == entries.len(),
        forall|i: int|
            0 <= i < entries.len() ==> #[trigger] with_annotation(entries, key, idx, a)[i].0
                == entries[i].0 && with_annotation(entries, key, idx, a)[i].1.len()
                == entries[i].1.len(),
        forall|i: int, j: int|
            0 <= i < entries.len() && 0 <= j < entries[i].1.len() ==> {
                let p = #[trigger] with_annotation(entries, key, idx, a)[i].1[j];
                let q = entries[i].1[j];
                &&& p.index == q.index
                &&& p.image_path == q.image_path
                &&& p.comments == q.comments
                &&& (i != first_entry(entries, key) || j != idx) ==> p.annotation == q.annotation
            },
        (lookup(entries, key) matches Some(ps) && 0 <= idx < ps.len()) ==> annotation_of(
            with_annotation(entries, key, idx, a),
            key,
            idx,
        ) == a,
{
    lemma_first_entry_has_key(entries, key);
    if lookup(entries, key) matches Some(ps) && 0 <= idx < ps.len() {
        law_read_after_write(entries, key, idx, a, key, -1);
    }
}

/// The store lists the images of the session, in order: for the folder of
/// the session it holds one properties record per image, image `i` with
/// index `i` and the path of image `i`.
pub open spec fn catalog_matches(v: StepsView) -> bool {
    match lookup(v.store, v.folder_path) {
        Some(ps) => {
            &&& ps.len() == v.all_images.len()
            &&& forall|i: int|
                0 <= i < ps.len() ==> #[trigger] ps[i].image_path == v.all_images[i] && ps[i].index
                    == i
        },
        None => false,
    }
}

/// A folder just opened lists all its images, in the order given, with the
/// first image current, no image selected, on the first page; and the
/// store lists the same images.
pub proof fn law_opened_lists_all_images(folder_path: Seq<char>, images: Seq<Seq<char>>)
    requires
        images.len() <= usize::MAX,
    ensures
        opened(folder_path, images).all_images == images,
        opened(folder_path, images).folder_path == folder_path,
        opened(folder_path, images).curr_idx == 0,
        opened(folder_path, images).current == 0,
        opened(folder_path, images).correct_items.len() == images.len(),
        catalog_matches(opened(folder_path, images)),
{
    law_opened_folder(folder_path, images);
}

/// Every operation keeps the store listing the images of the session: no
/// message, page button or folder choice changes an image's path or index,
/// nor drops or adds an image.
pub proof fn law_catalog_kept(
    v: StepsView,
    msg: StepMessage,
    picked: Option<(Seq<char>, Seq<Seq<char>>)>,
)
    requires
        catalog_matches(v),
        picked matches Some((p, imgs)) ==> imgs.len() <= usize::MAX,
    ensures
        catalog_matches(v.updated(msg).0),
        v.updated(msg).0.all_images == v.all_images,
        catalog_matches(v.advanced()),
        catalog_matches(v.gone_back()),
        catalog_matches(v.folder_chosen(picked)),
{
    let w = v.updated(msg).0;
    let a = step_transition(
        msg,
        v.curr_idx,
        v.correct_items,
        annotation_of(v.store, v.folder_path, v.curr_idx as int),
    ).2;
    law_annotation_changes_only_annotation(v.store, v.folder_path, v.curr_idx as int, a);
    lemma_first_entry_has_key(v.store, v.folder_path);
    lemma_first_entry_same_keys(v.store, w.store, v.folder_path);
    let f = first_entry(v.store, v.folder_path) as int;
    let ps = lookup(v.store, v.folder_path)->0;
    let qs = lookup(w.store, w.folder_path)->0;
    assert forall|i: int| 0 <= i < qs.len() implies #[trigger] qs[i].image_path == w.all_images[i]
        && qs[i].index == i by {
        assert(qs[i] == w.store[f].1[i]);
        assert(ps[i] == v.store[f].1[i]);
    }
    if let Some((p, imgs)) = picked {
        law_opened_lists_all_images(p, imgs);
    }
}

/// There is a next image exactly when the current image is not the last of
/// the session's images, and a previous one exactly when the current image
/// is not the first; the selections made do not matter. When there is a
/// next image, moving to it leaves the current image among the images.
pub proof fn law_image_availability(v: StepsView, other_items: Seq<Option<bool>>)
    ensures
        v.next_image_available() <==> v.curr_idx + 1 < v.all_images.len(),
        v.previous_image_available() <==> v.curr_idx > 0,
        (StepsView { correct_items: other_items, ..v }).next_image_available()
            == v.next_image_available(),
        (StepsView { correct_items: other_items, ..v }).previous_image_available()
            == v.previous_image_available(),
        v.next_image_available() ==> v.updated(StepMessage::Next()).0.curr_idx
            < v.all_images.len(),
        v.previous_image_available() ==> v.updated(StepMessage::Previous()).0.curr_idx + 1
            == v.curr_idx,
{
}

/// Only the last page stops the user going on, and the three pages have
/// three different titles.
pub proof fn law_pages_differ(a: Step, b: Step)
    ensures
        page_can_continue(a) <==> !(a is End),
        page_title(a) == page_title(b) ==> a == b,
{
    reveal_strlit("Welcome");
    reveal_strlit("Images");
    reveal_strlit("End");
    if page_title(a) == page_title(b) && a != b {
        assert(page_title(a).len() != page_title(b).len() || page_title(a)[0] != page_title(b)[0]);
    }
}

/// The number that a text of decimal digits stands for.
pub open spec fn digits_value(s: Seq<char>) -> nat
    decreases s.len(),
{
    if s.len() == 0 {
        0
    } else {
        digits_value(s.drop_last()) * 10 + ((s.last() as int - 48) as nat)
    }
}

/// The decimal text of a number is made of the digits `0` to `9`, has no
/// leading zero (but for zero itself), and reads back as the number.
pub proof fn law_decimal_reads_back(n: nat)
    ensures
        decimal(n).len() >= 1,
        forall|i: int| 0 <= i < decimal(n).len() ==> '0' <= #[trigger] decimal(n)[i] <= '9',
        n > 0 ==> decimal(n)[0] != '0',
        digits_value(decimal(n)) == n,
    decreases n,
{
    if n < 10 {
        assert(decimal(n) == seq![digit_char(n)]);
        assert(seq![digit_char(n)].drop_last() =~= Seq::<char>::empty());
        assert(digit_char(n) as int == n + 48);
        assert(digits_value(Seq::<char>::empty()) == 0);
    } else {
        law_decimal_reads_back(n / 10);
        let d = decimal(n / 10);
        assert(decimal(n) == d.push(digit_char(n % 10)));
        assert(d.push(digit_char(n % 10)).drop_last() =~= d);
        assert forall|i: int| 0 <= i < decimal(n).len() implies '0' <= #[trigger] decimal(n)[i]
            <= '9' by {
            if i < d.len() {
                assert(decimal(n)[i] == d[i]);
            }
        }
        assert(decimal(n)[0] == d[0]);
        assert(digit_char(n % 10) as int == n % 10 + 48);
        assert(n == (n / 10) * 10 + n % 10);
    }
}

/// The window title is "Image " followed by the decimal text of the current
/// image index.
pub proof fn law_window_title_names_image(idx: nat)
    ensures
        window_title(idx).len() == 6 + decimal(idx).len(),
        window_title(idx).subrange(0, 6) == "Image "@,
        digits_value(window_title(idx).subrange(6, window_title(idx).len() as int)) == idx,
{
    reveal_strlit("Image ");
    law_decimal_reads_back(idx);
    assert(window_title(idx).subrange(0, 6) =~= "Image "@);
    assert(window_title(idx).subrange(6, window_title(idx).len() as int) =~= decimal(idx));
}

/// A message of the page changes at most the current image, the selections
/// and the store: the pages, the page shown, the folder, its images and the
/// two flags stay as they were.
pub proof fn law_page_message_scope(v: StepsView, msg: StepMessage)
    ensures
        v.updated(msg).0 == (StepsView {
            curr_idx: v.updated(msg).0.curr_idx,
            correct_items: v.updated(msg).0.correct_items,
            store: v.updated(msg).0.store,
            ..v
        }),
        v.updated(msg).0.correct_items.len() == v.correct_items.len(),
{
}

/// Moving to the previous image is refused exactly at the first index and
/// moving to the next exactly at the largest index; every other message can
/// always be answered.
pub proof fn law_allowed_messages(msg: StepMessage, idx: nat)
    ensures
        msg is Previous ==> (message_allowed(msg, idx) <==> idx > 0),
        msg is Next ==> (message_allowed(msg, idx) <==> idx < usize::MAX),
        !(msg is Previous || msg is Next) ==> message_allowed(msg, idx),
{
}

} // verus!
