//! Resolution against answers that were written down beforehand.
//!
//! A `Recording` holds questions with the answers that a platform gave, and
//! stands for the platform that gives these answers and no others. A record
//! can be resolved against it without the platform at hand.

use vstd::prelude::*;
use vstd::pervasive::unreached;
use vstd::slice::slice_to_vec;
use crate::device_info::DeviceInfo;
use crate::outcome::{resolved, run, theorem_resolution, MAX_QUESTIONS};
use crate::query::{Answer, AnswerView, Query, QueryView};
use crate::resolve::{begun, Resolution};

verus! {

/// The answer to a question among written answers: that of the first entry
/// with this question, `Absent` where there is none.
pub open spec fn recorded_answer(
    entries: Seq<(QueryView, AnswerView)>,
    query: QueryView,
) -> AnswerView
    decreases entries.len(),
{
    if entries.len() == 0 {
        AnswerView::Absent
    } else if entries[0].0 == query {
        entries[0].1
    } else {
        recorded_answer(entries.drop_first(), query)
    }
}

/// The answers of a platform, written down.
#[derive(Clone, Debug, PartialEq, Eq)]
pub struct Recording {
    answers: Vec<(Query, Answer)>,
}

fn same_units(left: &Vec<u16>, right: &Vec<u16>) -> (same: bool)
    ensures
        same == (left@ == right@),
{
    if left.len() != right.len() {
        return false;
    }
    let len: usize = left.len();
    let mut i: usize = 0;
    while i < len
        invariant
            i <= len,
            len == left@.len(),
            len == right@.len(),
            forall|j: int| 0 <= j < i ==> left@[j] == right@[j],
        decreases len - i,
    {
        if left[i] != right[i] {
            return false;
        }
        i = i + 1;
    }
    assert(left@ =~= right@);
    true
}

fn same_query(left: &Query, right: &Query) -> (same: bool)
    ensures
        same == (left@ == right@),
{
    match left {
        Query::InterfaceProperty { key } => match right {
            Query::InterfaceProperty { key: other } => *key == *other,
            _ => false,
        },
        Query::LocateNode { instance_id } => match right {
            Query::LocateNode { instance_id: other } => same_units(instance_id, other),
            _ => false,
        },
        Query::Parent { node } => match right {
            Query::Parent { node: other } => *node == *other,
            _ => false,
        },
        Query::NodeProperty { node, key } => match right {
            Query::NodeProperty { node: other_node, key: other_key } => *node == *other_node
                && *key == *other_key,
            _ => false,
        },
    }
}

fn copy_answer(answer: &Answer) -> (copy: Answer)
    ensures
        copy@ == answer@,
{
    match answer {
        Answer::Absent => Answer::Absent,
        Answer::Units(units) => Answer::Units(slice_to_vec(units.as_slice())),
        Answer::Node(node) => Answer::Node(*node),
    }
}

impl Recording {
    /// The written questions and answers, in the order in which they were
    /// written.
    pub closed spec fn entries(&self) -> Seq<(QueryView, AnswerView)> {
        Seq::new(self.answers@.len(), |i: int| (self.answers@[i].0@, self.answers@[i].1@))
    }

    /// The platform that the recording stands for.
    pub open spec fn platform(&self) -> spec_fn(QueryView) -> AnswerView {
        |query: QueryView| recorded_answer(self.entries(), query)
    }

    /// A recording without answers: the platform that knows nothing.
    pub fn new() -> (recording: Recording)
        ensures
            recording.entries() == Seq::<(QueryView, AnswerView)>::empty(),
    {
        let recording = Recording { answers: Vec::new() };
        assert(recording.entries() =~= Seq::<(QueryView, AnswerView)>::empty());
        recording
    }

    /// Writes down the answer to a question. An answer that was written
    /// earlier for the same question stays the one that is given.
    pub fn record(&mut self, query: Query, answer: Answer)
        ensures
            final(self).entries() == old(self).entries().push((query@, answer@)),
    {
        self.answers.push((query, answer));
        assert(self.entries() =~= old(self).entries().push((query@, answer@)));
    }

    /// The answer that the recording gives to a question.
    pub fn answer(&self, query: &Query) -> (answer: Answer)
        ensures
            answer@ == recorded_answer(self.entries(), query@),
    {
        let count: usize = self.answers.len();
        let mut i: usize = 0;
        assert(self.entries().skip(0) == self.entries());
        while i < count
            invariant
                i <= count,
                count == self.answers@.len(),
                recorded_answer(self.entries(), query@) == recorded_answer(
                    self.entries().skip(i as int),
                    query@,
                ),
            decreases count - i,
        {
            let ghost rest = self.entries().skip(i as int);
            assert(rest[0] == (self.answers@[i as int].0@, self.answers@[i as int].1@));
            assert(rest.drop_first() == self.entries().skip(i + 1));
            if same_query(&self.answers[i].0, query) {
                return copy_answer(&self.answers[i].1);
            }
            i = i + 1;
        }
        Answer::Absent
    }

    /// Resolves a record against the recording: every question is answered
    /// from it, until none is left.
    pub fn resolve(&self, dev: DeviceInfo) -> (record: DeviceInfo)
        ensures
            record@ == resolved(self.platform(), dev@),
    {
        let ghost platform = self.platform();
        let ghost target = run(platform, begun(dev@), MAX_QUESTIONS as nat);
        proof {
            theorem_resolution(platform, dev@);
        }
        let mut resolution = Resolution::begin(dev);
        let mut left: usize = MAX_QUESTIONS;
        while left > 0
            invariant
                left <= MAX_QUESTIONS,
                platform == self.platform(),
                run(platform, resolution@, left as nat) == target,
            decreases left,
        {
            match resolution.query() {
                Some(query) => {
                    let answer = self.answer(&query);
                    resolution.answer(answer);
                    left = left - 1;
                },
                None => {
                    left = 0;
                },
            }
        }
        match resolution.into_device() {
            Ok(record) => record,
            Err(_) => unreached(),
        }
    }
}

} // verus!
