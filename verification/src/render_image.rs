//! The pages of the session, the messages they answer, and the annotation
//! store.

use vstd::prelude::*;

use crate::text::{decimal, usize_to_decimal};

verus! {

/// The colour scheme of the window.
#[derive(PartialEq, Eq, Structural, Clone, Copy, Debug)]
pub enum ThemeType {
    Light,
    Dark,
}

/// A message of the whole window.
#[derive(Clone, Debug)]
pub enum Message {
    BackPressed,
    NextPressed,
    StepMessage(StepMessage),
}

/// A message of the page that is shown.
#[derive(Clone, Debug)]
pub enum StepMessage {
    Previous(),
    Next(),
    MarkAsCorrect(),
    MarkAsIncorrect(),
    ResetSelection(),
    Export(),
    ChooseFolderPath(),
}

/// A page of the session.
#[derive(Clone, Debug)]
pub enum Step {
    WelcomeWithFolderChoose,
    Images,
    End,
}

/// Whether a page lets the user go on to the next one.
pub open spec fn page_can_continue(step: Step) -> bool {
    match step {
        Step::WelcomeWithFolderChoose => true,
        Step::Images => true,
        Step::End => false,
    }
}

/// The title of a page.
pub open spec fn page_title(step: Step) -> Seq<char> {
    match step {
        Step::WelcomeWithFolderChoose => "Welcome"@,
        Step::Images => "Images"@,
        Step::End => "End"@,
    }
}

impl Step {
    pub fn can_continue(&self) -> (b: bool)
        ensures
            b == page_can_continue(*self),
    {
        match self {
            Step::WelcomeWithFolderChoose => true,
            Step::Images => true,
            Step::End => false,
        }
    }

    pub fn title(&self) -> (s: String)
        ensures
            s@ == page_title(*self),
    {
        match self {
            Step::WelcomeWithFolderChoose => String::from_str("Welcome"),
            Step::Images => String::from_str("Images"),
            Step::End => String::from_str("End"),
        }
    }
}

/// What is recorded of one image of a folder.
#[derive(Default, Debug, Clone)]
pub struct Properties {
    pub index: usize,
    pub image_path: String,
    pub annotation: Option<bool>,
    pub comments: Option<String>,
}

/// `Properties` with its texts taken as character sequences.
pub struct PropertiesView {
    pub index: usize,
    pub image_path: Seq<char>,
    pub annotation: Option<bool>,
    pub comments: Option<Seq<char>>,
}

pub open spec fn optional_text(o: Option<String>) -> Option<Seq<char>> {
    match o {
        Some(s) => Some(s@),
        None => None,
    }
}

impl View for Properties {
    type V = PropertiesView;

    open spec fn view(&self) -> PropertiesView {
        PropertiesView {
            index: self.index,
            image_path: self.image_path@,
            annotation: self.annotation,
            comments: optional_text(self.comments),
        }
    }
}

/// The annotations of the folders that were opened: for each folder path,
/// the properties of its images, in the order of the images.
///
/// A store built by `init_json_obj` holds one folder, and the library's
/// changes never add an entry, so no folder has two entries
/// (`distinct_folders`). The field is public: a store put together by hand
/// with a folder twice is read from the front, the first entry of a folder
/// being the one that counts.
#[derive(Default, Debug, Clone)]
pub struct AnnotatedStore {
    pub image_to_properties_map: Vec<(String, Vec<Properties>)>,
}

pub open spec fn properties_view(ps: Seq<Properties>) -> Seq<PropertiesView> {
    ps.map_values(|p: Properties| p@)
}

pub open spec fn entry_view(e: (String, Vec<Properties>)) -> (Seq<char>, Seq<PropertiesView>) {
    (e.0@, properties_view(e.1@))
}

impl View for AnnotatedStore {
    type V = Seq<(Seq<char>, Seq<PropertiesView>)>;

    open spec fn view(&self) -> Seq<(Seq<char>, Seq<PropertiesView>)> {
        self.image_to_properties_map@.map_values(|e: (String, Vec<Properties>)| entry_view(e))
    }
}

/// No folder has two entries. Every store that the library builds or
/// changes keeps this, so that the store reads as a map from folder path to
/// the properties of its images.
pub open spec fn distinct_folders(entries: Seq<(Seq<char>, Seq<PropertiesView>)>) -> bool {
    forall|i: int, j: int| 0 <= i < j < entries.len() ==> entries[i].0 != entries[j].0
}

/// The two stores hold the same folders, in the same places.
pub open spec fn same_folders(
    a: Seq<(Seq<char>, Seq<PropertiesView>)>,
    b: Seq<(Seq<char>, Seq<PropertiesView>)>,
) -> bool {
    &&& a.len() == b.len()
    &&& forall|j: int| 0 <= j < a.len() ==> a[j].0 == b[j].0
}

/// The position of the first entry of `key`, or the number of entries when
/// there is none.
pub open spec fn first_entry(entries: Seq<(Seq<char>, Seq<PropertiesView>)>, key: Seq<char>) -> nat
    decreases entries.len(),
{
    if entries.len() == 0 {
        0
    } else if entries[0].0 == key {
        0
    } else {
        1 + first_entry(entries.drop_first(), key)
    }
}

/// The properties recorded for the folder `key`, if any.
pub open spec fn lookup(entries: Seq<(Seq<char>, Seq<PropertiesView>)>, key: Seq<char>) -> Option<
    Seq<PropertiesView>,
> {
    let i = first_entry(entries, key);
    if i < entries.len() {
        Some(entries[i as int].1)
    } else {
        None
    }
}

/// The annotation recorded for image `idx` of folder `key`; `None` when the
/// folder or the image is not in the store.
pub open spec fn annotation_of(
    entries: Seq<(Seq<char>, Seq<PropertiesView>)>,
    key: Seq<char>,
    idx: int,
) -> Option<bool> {
    match lookup(entries, key) {
        Some(ps) => if 0 <= idx < ps.len() {
            ps[idx].annotation
        } else {
            None
        },
        None => None,
    }
}

/// The store with the annotation of image `idx` of folder `key` set to `a`;
/// the store unchanged when the folder or the image is not in it.
pub open spec fn with_annotation(
    entries: Seq<(Seq<char>, Seq<PropertiesView>)>,
    key: Seq<char>,
    idx: int,
    a: Option<bool>,
) -> Seq<(Seq<char>, Seq<PropertiesView>)> {
    let i = first_entry(entries, key) as int;
    if i < entries.len() && 0 <= idx < entries[i].1.len() {
        let ps = entries[i].1;
        entries.update(i, (key, ps.update(idx, PropertiesView { annotation: a, ..ps[idx] })))
    } else {
        entries
    }
}

/// The properties of a folder just opened: image `i` has index `i`, its
/// path, and neither annotation nor comment.
pub open spec fn fresh_properties(paths: Seq<Seq<char>>) -> Seq<PropertiesView> {
    Seq::new(
        paths.len(),
        |i: int|
            PropertiesView {
                index: i as usize,
                image_path: paths[i],
                annotation: None,
                comments: None,
            },
    )
}

pub open spec fn texts(v: Seq<String>) -> Seq<Seq<char>> {
    v.map_values(|s: String| s@)
}

/// The position of the first entry of `key` is `i` when all entries before
/// `i` have another key and entry `i` (if there is one) has `key`.
proof fn lemma_first_entry(entries: Seq<(Seq<char>, Seq<PropertiesView>)>, key: Seq<char>, i: int)
    requires
        0 <= i <= entries.len(),
        forall|j: int| 0 <= j < i ==> entries[j].0 != key,
        i < entries.len() ==> entries[i].0 == key,
    ensures
        first_entry(entries, key) == i,
    decreases i,
{
    if i > 0 {
        let rest = entries.drop_first();
        assert forall|j: int| 0 <= j < i - 1 implies rest[j].0 != key by {
            assert(rest[j] == entries[j + 1]);
        }
        lemma_first_entry(rest, key, i - 1);
    }
}

/// A new store that holds the images of one folder, none annotated yet.
pub fn init_json_obj(folder_path: String, all_paths: Vec<String>) -> (store: AnnotatedStore)
    ensures
        store@ == seq![(folder_path@, fresh_properties(texts(all_paths@)))],
        distinct_folders(store@),
{
    let mut vec_maps: Vec<Properties> = Vec::new();
    let n = all_paths.len();
    for idx in 0..n
        invariant
            n == all_paths.len(),
            vec_maps.len() == idx,
            properties_view(vec_maps@) =~= fresh_properties(texts(all_paths@)).take(idx as int),
    {
        let properties = Properties {
            index: idx,
            image_path: all_paths[idx].clone(),
            annotation: None,
            comments: None,
        };
        vec_maps.push(properties);
    }
    let mut image_to_properties_map: Vec<(String, Vec<Properties>)> = Vec::new();
    image_to_properties_map.push((folder_path, vec_maps));
    let store = AnnotatedStore { image_to_properties_map };
    assert(fresh_properties(texts(all_paths@)).take(n as int) =~= fresh_properties(texts(all_paths@)));
    assert(store@ =~= seq![(folder_path@, fresh_properties(texts(all_paths@)))]);
    store
}

impl AnnotatedStore {
    /// The position of the first entry of `folder_path`, or the number of
    /// entries when there is none.
    fn find_entry(&self, folder_path: &String) -> (i: usize)
        ensures
            i == first_entry(self@, folder_path@),
            i <= self@.len(),
            i < self@.len() ==> self@[i as int].0 == folder_path@,
    {
        let n = self.image_to_properties_map.len();
        let mut i: usize = 0;
        loop
            invariant
                n == self.image_to_properties_map.len(),
                i <= n,
                forall|j: int| 0 <= j < i ==> self@[j].0 != folder_path@,
            ensures
                i <= n,
                forall|j: int| 0 <= j < i ==> self@[j].0 != folder_path@,
                i < n ==> self@[i as int].0 == folder_path@,
            decreases n - i,
        {
            if i == n {
                break;
            }
            if self.image_to_properties_map[i].0 == *folder_path {
                break;
            }
            i = i + 1;
        }
        proof {
            lemma_first_entry(self@, folder_path@, i as int);
        }
        i
    }

    /// The annotation recorded for image `idx` of folder `folder_path`.
    pub fn annotation_at(&self, folder_path: &String, idx: usize) -> (a: Option<bool>)
        ensures
            a == annotation_of(self@, folder_path@, idx as int),
    {
        let i = self.find_entry(folder_path);
        if i < self.image_to_properties_map.len() && idx < self.image_to_properties_map[i].1.len() {
            self.image_to_properties_map[i].1[idx].annotation
        } else {
            None
        }
    }

    /// Records `annotation` for image `idx` of folder `folder_path`; leaves
    /// the store as it is when the folder or the image is not in it.
    pub fn set_annotation(&mut self, folder_path: &String, idx: usize, annotation: Option<bool>)
        ensures
            final(self)@ == with_annotation(old(self)@, folder_path@, idx as int, annotation),
            same_folders(old(self)@, final(self)@),
            distinct_folders(old(self)@) ==> distinct_folders(final(self)@),
    {
        let i = self.find_entry(folder_path);
        if i < self.image_to_properties_map.len() && idx < self.image_to_properties_map[i].1.len() {
            let ghost before = self@;
            self.image_to_properties_map[i].1[idx].annotation = annotation;
            assert(self@[i as int].1 =~= before[i as int].1.update(
                idx as int,
                PropertiesView { annotation: annotation, ..before[i as int].1[idx as int] },
            ));
            assert(self@ =~= with_annotation(before, folder_path@, idx as int, annotation));
        }
    }
}

/// What a message of the page asks of the world outside the library.
#[derive(PartialEq, Eq, Structural, Clone, Copy, Debug)]
pub enum StepAction {
    /// Nothing to do outside.
    Nothing,
    /// Write the annotation store out.
    ExportJson,
    /// Let the user pick a folder, then hand the choice back.
    PickFolder,
}

/// A mark (or the removal of a mark) on image `idx`: the selections and the
/// annotation of the current image change only when `idx` is in range of the
/// selections.
pub open spec fn mark_selection(
    idx: nat,
    items: Seq<Option<bool>>,
    shown: Option<bool>,
    value: Option<bool>,
) -> (nat, Seq<Option<bool>>, Option<bool>, StepAction) {
    if idx < items.len() {
        (idx, items.update(idx as int, value), value, StepAction::Nothing)
    } else {
        (idx, items, shown, StepAction::Nothing)
    }
}

/// How a page answers a message: from the current image index, the
/// selections and the stored annotation of the current image, to the new
/// index, the new selections, the annotation of the image that was current,
/// and what is asked of the world outside.
pub open spec fn step_transition(
    msg: StepMessage,
    idx: nat,
    items: Seq<Option<bool>>,
    shown: Option<bool>,
) -> (nat, Seq<Option<bool>>, Option<bool>, StepAction) {
    match msg {
        StepMessage::Next() => (idx + 1, items, shown, StepAction::Nothing),
        StepMessage::Previous() => ((idx - 1) as nat, items, shown, StepAction::Nothing),
        StepMessage::MarkAsCorrect() => mark_selection(idx, items, shown, Some(true)),
        StepMessage::MarkAsIncorrect() => mark_selection(idx, items, shown, Some(false)),
        StepMessage::ResetSelection() => mark_selection(idx, items, shown, None),
        StepMessage::Export() => (idx, items, shown, StepAction::ExportJson),
        StepMessage::ChooseFolderPath() => (idx, items, shown, StepAction::PickFolder),
    }
}

/// Whether a message can be answered from image index `idx`: the index does
/// not go below zero nor past the largest `usize`.
pub open spec fn message_allowed(msg: StepMessage, idx: nat) -> bool {
    &&& msg is Next ==> idx < usize::MAX
    &&& msg is Previous ==> idx > 0
}

/// The words that describe the selection of image `idx`.
pub open spec fn selection_label(idx: int, items: Seq<Option<bool>>) -> Seq<char> {
    if 0 <= idx < items.len() {
        match items[idx] {
            Some(true) => "Correct"@,
            Some(false) => "Incorrect"@,
            None => "Not selected yet"@,
        }
    } else {
        "No Image"@
    }
}

/// The lines of text that describe the session of a folder.
pub struct InfoTexts {
    pub curr_idx: String,
    pub total_images: String,
    pub folder_path: String,
    pub current_selection: String,
}

impl Step {
    /// Answers a message of the page.
    ///
    /// `curr_idx` and `correct_items` are changed as the message says; the
    /// result holds the annotation of the image that was current (the new
    /// mark, or what `store` held for it) and what is asked of the world
    /// outside.
    pub fn update(
        &self,
        msg: StepMessage,
        curr_idx: &mut usize,
        folder_path: &String,
        store: &AnnotatedStore,
        correct_items: &mut Vec<Option<bool>>,
    ) -> (res: (Option<bool>, StepAction))
        requires
            message_allowed(msg, *old(curr_idx) as nat),
        ensures
            (*final(curr_idx) as nat, final(correct_items)@, res.0, res.1) == step_transition(
                msg,
                *old(curr_idx) as nat,
                old(correct_items)@,
                annotation_of(store@, folder_path@, *old(curr_idx) as int),
            ),
    {
        let mut new_annotation = store.annotation_at(folder_path, *curr_idx);
        let mut action = StepAction::Nothing;
        match msg {
            StepMessage::Next() => {
                *curr_idx = *curr_idx + 1;
            },
            StepMessage::Previous() => {
                *curr_idx = *curr_idx - 1;
            },
            StepMessage::MarkAsCorrect() => {
                if *curr_idx < correct_items.len() {
                    correct_items.set(*curr_idx, Some(true));
                    new_annotation = Some(true);
                }
            },
            StepMessage::MarkAsIncorrect() => {
                if *curr_idx < correct_items.len() {
                    correct_items.set(*curr_idx, Some(false));
                    new_annotation = Some(false);
                }
            },
            StepMessage::ResetSelection() => {
                if *curr_idx < correct_items.len() {
                    correct_items.set(*curr_idx, None);
                    new_annotation = None;
                }
            },
            StepMessage::Export() => {
                action = StepAction::ExportJson;
            },
            StepMessage::ChooseFolderPath() => {
                action = StepAction::PickFolder;
            },
        }
        (new_annotation, action)
    }

    /// The words that describe the selection of image `curr_idx`.
    pub fn selection_label(curr_idx: usize, correct_items: &Vec<Option<bool>>) -> (s: &'static str)
        ensures
            s@ == selection_label(curr_idx as int, correct_items@),
    {
        if curr_idx < correct_items.len() {
            match correct_items[curr_idx] {
                Some(true) => "Correct",
                Some(false) => "Incorrect",
                None => "Not selected yet",
            }
        } else {
            "No Image"
        }
    }

    /// The lines of text that describe the session: the image index, the
    /// number of images, the folder path and the selection of the current
    /// image.
    pub fn create_info(
        curr_idx: usize,
        len_images: usize,
        folder_path: &str,
        correct_items: &Vec<Option<bool>>,
    ) -> (info: InfoTexts)
        ensures
            info.curr_idx@ == "curr_idx: "@ + decimal(curr_idx as nat),
            info.total_images@ == "Total Images: "@ + decimal(len_images as nat),
            info.folder_path@ == "Folder Path: "@ + folder_path@,
            info.current_selection@ == "Current selection: "@ + selection_label(
                curr_idx as int,
                correct_items@,
            ),
    {
        let mut idx_text = String::from_str("curr_idx: ");
        idx_text.append(usize_to_decimal(curr_idx).as_str());
        let mut len_text = String::from_str("Total Images: ");
        len_text.append(usize_to_decimal(len_images).as_str());
        let mut path_text = String::from_str("Folder Path: ");
        path_text.append(folder_path);
        let mut selection_text = String::from_str("Current selection: ");
        selection_text.append(Self::selection_label(curr_idx, correct_items));
        InfoTexts {
            curr_idx: idx_text,
            total_images: len_text,
            folder_path: path_text,
            current_selection: selection_text,
        }
    }
}

/// The path of the image at `curr_idx`, or the empty path when there is no
/// such image.
pub fn fetch_image_path(all_images: &Vec<String>, curr_idx: usize) -> (path: String)
    ensures
        path@ == (if curr_idx < all_images@.len() {
            all_images@[curr_idx as int]@
        } else {
            Seq::<char>::empty()
        }),
{
    if curr_idx < all_images.len() {
        all_images[curr_idx].clone()
    } else {
        String::new()
    }
}

} // verus!
