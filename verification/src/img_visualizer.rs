//! The session of a folder: which page is shown, which image is current, the
//! selections made so far, and the annotation store.

use vstd::prelude::*;

use crate::render_image::{
    annotation_of, distinct_folders, fresh_properties, init_json_obj, message_allowed, page_can_continue,
    page_title, step_transition, texts, with_annotation, AnnotatedStore, Message, PropertiesView,
    Step, StepAction, StepMessage,
};
use crate::text::{decimal, usize_to_decimal};

verus! {

/// The pages of a session, in the order in which they are shown.
pub open spec fn all_pages() -> Seq<Step> {
    seq![Step::WelcomeWithFolderChoose, Step::Images, Step::End]
}

/// The state of a session, as plain values.
pub struct StepsView {
    pub pages: Seq<Step>,
    pub folder_path: Seq<char>,
    pub curr_idx: nat,
    pub all_images: Seq<Seq<char>>,
    pub correct_items: Seq<Option<bool>>,
    pub store: Seq<(Seq<char>, Seq<PropertiesView>)>,
    pub current: nat,
    pub modified: bool,
    pub btn_status: bool,
}

impl StepsView {
    /// The pages are the three of a session and the page shown is one of them.
    pub open spec fn wf(self) -> bool {
        &&& self.pages == all_pages()
        &&& self.current < self.pages.len()
    }

    pub open spec fn has_previous(self) -> bool {
        self.current > 0
    }

    pub open spec fn can_continue(self) -> bool {
        self.current + 1 < self.pages.len() && page_can_continue(self.pages[self.current as int])
    }

    /// The session after the "next page" button.
    pub open spec fn advanced(self) -> StepsView {
        if self.can_continue() {
            StepsView { current: self.current + 1, ..self }
        } else {
            self
        }
    }

    /// The session after the "previous page" button.
    pub open spec fn gone_back(self) -> StepsView {
        if self.has_previous() {
            StepsView { current: (self.current - 1) as nat, ..self }
        } else {
            self
        }
    }

    /// The session after a message of the page, and what is asked of the
    /// world outside: the page answers the message, and the annotation that
    /// it gives for the image that was current is recorded in the store.
    pub open spec fn updated(self, msg: StepMessage) -> (StepsView, StepAction) {
        let t = step_transition(
            msg,
            self.curr_idx,
            self.correct_items,
            annotation_of(self.store, self.folder_path, self.curr_idx as int),
        );
        (
            StepsView {
                curr_idx: t.0,
                correct_items: t.1,
                store: with_annotation(self.store, self.folder_path, self.curr_idx as int, t.2),
                ..self
            },
            t.3,
        )
    }

    /// The session after the world outside answered a folder choice: a fresh
    /// session of the chosen folder, or, when none was chosen, the session as
    /// it was with the choice marked as failed.
    pub open spec fn folder_chosen(self, picked: Option<(Seq<char>, Seq<Seq<char>>)>) -> StepsView {
        match picked {
            Some((path, images)) => StepsView {
                modified: true,
                btn_status: true,
                ..opened(path, images)
            },
            None => StepsView { btn_status: false, ..self },
        }
    }

    /// Whether there is an image after the current one.
    pub open spec fn next_image_available(self) -> bool {
        self.curr_idx + 1 < self.all_images.len()
    }

    /// Whether there is an image before the current one.
    pub open spec fn previous_image_available(self) -> bool {
        self.curr_idx > 0
    }
}

/// A session of a folder just opened: its images, none selected, each with a
/// fresh entry in the store, the first image current, on the first page.
pub open spec fn opened(folder_path: Seq<char>, images: Seq<Seq<char>>) -> StepsView {
    StepsView {
        pages: all_pages(),
        folder_path,
        curr_idx: 0,
        all_images: images,
        correct_items: Seq::new(images.len(), |i: int| None),
        store: seq![(folder_path, fresh_properties(images))],
        current: 0,
        modified: false,
        btn_status: false,
    }
}

/// The state of a session.
#[derive(Debug)]
pub struct Steps {
    steps: Vec<Step>,
    folder_path: String,
    curr_idx: usize,
    all_images: Vec<String>,
    correct_items: Vec<Option<bool>>,
    json_obj: AnnotatedStore,
    current: usize,
    modified: bool,
    btn_status: bool,
}

impl View for Steps {
    type V = StepsView;

    closed spec fn view(&self) -> StepsView {
        StepsView {
            pages: self.steps@,
            folder_path: self.folder_path@,
            curr_idx: self.curr_idx as nat,
            all_images: texts(self.all_images@),
            correct_items: self.correct_items@,
            store: self.json_obj@,
            current: self.current as nat,
            modified: self.modified,
            btn_status: self.btn_status,
        }
    }
}

/// A copy of a list of texts.
fn copy_texts(v: &Vec<String>) -> (c: Vec<String>)
    ensures
        texts(c@) == texts(v@),
{
    let mut c: Vec<String> = Vec::new();
    for i in 0..v.len()
        invariant
            c.len() == i,
            forall|j: int| 0 <= j < i ==> c@[j]@ == v@[j]@,
    {
        c.push(v[i].clone());
    }
    assert(texts(c@) =~= texts(v@));
    c
}

/// `n` selections, none made.
fn no_selections(n: usize) -> (items: Vec<Option<bool>>)
    ensures
        items@ == Seq::new(n as nat, |i: int| None::<bool>),
{
    let mut items: Vec<Option<bool>> = Vec::new();
    for i in 0..n
        invariant
            items@ =~= Seq::new(i as nat, |j: int| None::<bool>),
    {
        items.push(None);
    }
    items
}

impl Steps {
    #[verifier::type_invariant]
    spec fn pages_in_order(self) -> bool {
        &&& self.steps@ == all_pages()
        &&& self.current < 3
    }

    /// A session on the welcome page, with the given folder, image index,
    /// images, selections and store.
    pub fn new(
        folder_path: String,
        curr_idx: usize,
        all_images: Vec<String>,
        correct_items: Vec<Option<bool>>,
        json_obj: AnnotatedStore,
    ) -> (s: Steps)
        ensures
            s@ == (StepsView {
                pages: all_pages(),
                folder_path: folder_path@,
                curr_idx: curr_idx as nat,
                all_images: texts(all_images@),
                correct_items: correct_items@,
                store: json_obj@,
                current: 0,
                modified: false,
                btn_status: false,
            }),
            s@.wf(),
    {
        let steps = vec![Step::WelcomeWithFolderChoose, Step::Images, Step::End];
        assert(steps@ =~= all_pages());
        Steps {
            steps,
            folder_path,
            curr_idx,
            all_images,
            correct_items,
            json_obj,
            current: 0,
            modified: false,
            btn_status: false,
        }
    }

    /// A session of a folder just opened, with its images in the given order.
    fn open_folder(folder_path: String, all_images: Vec<String>) -> (s: Steps)
        ensures
            s@ == opened(folder_path@, texts(all_images@)),
            s@.wf(),
            distinct_folders(s@.store),
    {
        let n = all_images.len();
        let json_obj = init_json_obj(folder_path.clone(), copy_texts(&all_images));
        let mut steps_obj = Steps::new(folder_path, 0, all_images, Vec::new(), json_obj);
        let items = no_selections(n);
        steps_obj.correct_items = items;
        assert(steps_obj@ =~= opened(steps_obj@.folder_path, steps_obj@.all_images));
        steps_obj
    }

    /// Answers a message of the page that is shown, records the annotation
    /// that it gives for the image that was current, and says what is asked
    /// of the world outside.
    ///
    /// The page gives back the annotation of the image that was current: the
    /// new mark, or what the store held for it. The library records that
    /// annotation in the store, under the folder of the session and the image
    /// that was current, so that the store always holds the marks made (see
    /// `laws::in_sync`). Which page is shown makes no difference to the
    /// answer, and the page shown stays as it was.
    pub fn update(&mut self, msg: StepMessage) -> (action: StepAction)
        requires
            message_allowed(msg, old(self)@.curr_idx),
        ensures
            (final(self)@, action) == old(self)@.updated(msg),
            final(self)@.wf(),
            distinct_folders(old(self)@.store) ==> distinct_folders(final(self)@.store),
    {
        proof {
            crate::laws::law_distinct_folders_kept(old(self)@, msg, None, Seq::empty(), Seq::empty());
        }
        proof {
            use_type_invariant(&*self);
        }
        let old_idx = self.curr_idx;
        let mut idx = self.curr_idx;
        let mut items: Vec<Option<bool>> = Vec::new();
        std::mem::swap(&mut items, &mut self.correct_items);
        let (annotation, action) = self.steps[self.current].update(
            msg,
            &mut idx,
            &self.folder_path,
            &self.json_obj,
            &mut items,
        );
        let mut store = AnnotatedStore { image_to_properties_map: Vec::new() };
        std::mem::swap(&mut store, &mut self.json_obj);
        store.set_annotation(&self.folder_path, old_idx, annotation);
        self.json_obj = store;
        self.correct_items = items;
        self.curr_idx = idx;
        action
    }

    /// Takes in the answer of the world outside to a folder choice: the
    /// chosen folder and its images, or nothing when no folder was chosen.
    ///
    /// A chosen folder replaces the whole session by a fresh one for that
    /// folder, marked as modified and as a successful choice. When no folder
    /// was chosen the library keeps the session as it is and only marks the
    /// choice as failed (`btn_status` false).
    pub fn folder_chosen(&mut self, picked: Option<(String, Vec<String>)>)
        ensures
            final(self)@ == old(self)@.folder_chosen(
                match picked {
                    Some((p, imgs)) => Some((p@, texts(imgs@))),
                    None => None,
                },
            ),
            final(self)@.wf(),
            distinct_folders(old(self)@.store) ==> distinct_folders(final(self)@.store),
            picked is Some ==> distinct_folders(final(self)@.store),
    {
        proof {
            use_type_invariant(&*self);
        }
        match picked {
            Some((path, images)) => {
                let mut steps_obj = Steps::open_folder(path, images);
                steps_obj.modified = true;
                steps_obj.btn_status = true;
                *self = steps_obj;
            },
            None => {
                self.btn_status = false;
            },
        }
    }

    /// Shows the next page, when the page shown lets the user go on.
    pub fn advance(&mut self)
        ensures
            final(self)@ == old(self)@.advanced(),
            final(self)@.wf(),
    {
        proof {
            use_type_invariant(&*self);
        }
        if self.can_continue() {
            self.current = self.current + 1;
        }
    }

    /// Shows the previous page, when there is one.
    pub fn go_back(&mut self)
        ensures
            final(self)@ == old(self)@.gone_back(),
            final(self)@.wf(),
    {
        proof {
            use_type_invariant(&*self);
        }
        if self.has_previous() {
            self.current = self.current - 1;
        }
    }

    /// Whether there is a page before the one shown.
    pub fn has_previous(&self) -> (b: bool)
        ensures
            b == self@.has_previous(),
    {
        self.current > 0
    }

    /// Whether there is a page after the one shown and the page shown lets
    /// the user go on.
    pub fn can_continue(&self) -> (b: bool)
        ensures
            b == self@.can_continue(),
    {
        proof {
            use_type_invariant(self);
        }
        self.current + 1 < self.steps.len() && self.steps[self.current].can_continue()
    }

    /// The title of the page shown.
    pub fn title(&self) -> (s: String)
        ensures
            s@ == page_title(self@.pages[self@.current as int]),
    {
        proof {
            use_type_invariant(self);
        }
        self.steps[self.current].title()
    }

    /// Whether there is an image after the current one.
    pub fn is_next_image_available(&self) -> (b: bool)
        ensures
            b == self@.next_image_available(),
    {
        self.curr_idx < self.all_images.len() && self.all_images.len() - self.curr_idx > 1
    }

    /// Whether there is an image before the current one.
    pub fn is_previous_image_available(&self) -> (b: bool)
        ensures
            b == self@.previous_image_available(),
    {
        self.curr_idx > 0
    }

    /// The page that is shown.
    pub fn current_step(&self) -> (step: &Step)
        ensures
            *step == self@.pages[self@.current as int],
    {
        proof {
            use_type_invariant(self);
        }
        &self.steps[self.current]
    }

    pub fn curr_idx(&self) -> (idx: usize)
        ensures
            idx == self@.curr_idx,
    {
        self.curr_idx
    }

    pub fn folder_path(&self) -> (p: &String)
        ensures
            p@ == self@.folder_path,
    {
        &self.folder_path
    }

    pub fn all_images(&self) -> (imgs: &Vec<String>)
        ensures
            texts(imgs@) == self@.all_images,
    {
        &self.all_images
    }

    pub fn correct_items(&self) -> (items: &Vec<Option<bool>>)
        ensures
            items@ == self@.correct_items,
    {
        &self.correct_items
    }

    pub fn json_obj(&self) -> (store: &AnnotatedStore)
        ensures
            store@ == self@.store,
    {
        &self.json_obj
    }

    /// Whether the last folder choice found a folder.
    pub fn btn_status(&self) -> (b: bool)
        ensures
            b == self@.btn_status,
    {
        self.btn_status
    }

    /// Whether the session was replaced by that of a chosen folder.
    pub fn modified(&self) -> (b: bool)
        ensures
            b == self@.modified,
    {
        self.modified
    }
}

/// The window of the session.
#[derive(Debug)]
pub struct FolderVisualizer {
    steps: Steps,
}

impl View for FolderVisualizer {
    type V = StepsView;

    closed spec fn view(&self) -> StepsView {
        self.steps@
    }
}

/// The window title for image index `idx`.
pub open spec fn window_title(idx: nat) -> Seq<char> {
    "Image "@ + decimal(idx)
}

/// The session after a message of the window, and what is asked of the world
/// outside.
pub open spec fn window_updated(v: StepsView, message: Message) -> (StepsView, StepAction) {
    match message {
        Message::BackPressed => (v.gone_back(), StepAction::Nothing),
        Message::NextPressed => (v.advanced(), StepAction::Nothing),
        Message::StepMessage(m) => v.updated(m),
    }
}

/// Whether a message of the window can be answered in session `v`.
pub open spec fn window_message_allowed(v: StepsView, message: Message) -> bool {
    match message {
        Message::StepMessage(m) => message_allowed(m, v.curr_idx),
        _ => true,
    }
}

impl FolderVisualizer {
    /// The window for a folder whose images were listed, in that order.
    pub fn new(folder_path: String, all_images: Vec<String>) -> (w: FolderVisualizer)
        ensures
            w@ == opened(folder_path@, texts(all_images@)),
            w@.wf(),
            distinct_folders(w@.store),
    {
        FolderVisualizer { steps: Steps::open_folder(folder_path, all_images) }
    }

    /// The window title: the index of the current image.
    pub fn title(&self) -> (s: String)
        ensures
            s@ == window_title(self@.curr_idx),
    {
        let mut s = String::from_str("Image ");
        s.append(usize_to_decimal(self.steps.curr_idx()).as_str());
        s
    }

    /// Answers a message of the window and says what is asked of the world
    /// outside.
    pub fn update(&mut self, message: Message) -> (action: StepAction)
        requires
            window_message_allowed(old(self)@, message),
        ensures
            (final(self)@, action) == window_updated(old(self)@, message),
            final(self)@.wf(),
            distinct_folders(old(self)@.store) ==> distinct_folders(final(self)@.store),
    {
        match message {
            Message::BackPressed => {
                self.steps.go_back();
                StepAction::Nothing
            },
            Message::NextPressed => {
                self.steps.advance();
                StepAction::Nothing
            },
            Message::StepMessage(step_msg) => self.steps.update(step_msg),
        }
    }

    /// Takes in the answer of the world outside to a folder choice.
    pub fn folder_chosen(&mut self, picked: Option<(String, Vec<String>)>)
        ensures
            final(self)@ == old(self)@.folder_chosen(
                match picked {
                    Some((p, imgs)) => Some((p@, texts(imgs@))),
                    None => None,
                },
            ),
            final(self)@.wf(),
            distinct_folders(old(self)@.store) ==> distinct_folders(final(self)@.store),
            picked is Some ==> distinct_folders(final(self)@.store),
    {
        self.steps.folder_chosen(picked);
    }

    pub fn steps(&self) -> (s: &Steps)
        ensures
            s@ == self@,
    {
        &self.steps
    }
}

} // verus!
