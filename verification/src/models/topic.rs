//! Topics: what a practice conversation is about.

use vstd::prelude::*;

verus! {

/// A topic that is to be stored.
#[derive(Debug, PartialEq, Eq)]
pub struct NewTopic {
    pub title: String,
    pub difficulty: Option<String>,
    pub prompt_hint: Option<String>,
}

/// The view of a [`NewTopic`].
pub struct NewTopicView {
    pub title: Seq<char>,
    pub difficulty: Option<Seq<char>>,
    pub prompt_hint: Option<Seq<char>>,
}

impl View for NewTopic {
    type V = NewTopicView;

    open spec fn view(&self) -> NewTopicView {
        NewTopicView {
            title: self.title@,
            difficulty: self.difficulty.deep_view(),
            prompt_hint: self.prompt_hint.deep_view(),
        }
    }
}

} // verus!
