//! An entry of the question section: a name, and the type and class asked for.

use crate::protocol::question_class_enum::QuestionClass;
use crate::protocol::question_type_enum::QuestionType;
use vstd::prelude::*;

verus! {

/// A decoded question.
#[derive(Debug, Clone, PartialEq, Eq)]
pub struct DnsQuestion {
    /// The domain name asked about: lowercase labels joined by dots.
    pub name: String,
    /// The type of record asked for.
    pub q_type: QuestionType,
    /// The class asked for.
    pub q_class: QuestionClass,
}

/// A question as a plain value.
pub struct DnsQuestionView {
    pub name: Seq<char>,
    pub q_type: QuestionType,
    pub q_class: QuestionClass,
}

impl View for DnsQuestion {
    type V = DnsQuestionView;

    open spec fn view(&self) -> DnsQuestionView {
        DnsQuestionView { name: self.name@, q_type: self.q_type, q_class: self.q_class }
    }
}

impl DnsQuestion {
    /// The question made of the three parts.
    pub fn new(name: String, q_type: QuestionType, q_class: QuestionClass) -> (q: DnsQuestion)
        ensures
            q@ == (DnsQuestionView { name: name@, q_type, q_class }),
    {
        DnsQuestion { name, q_type, q_class }
    }
}

} // verus!
