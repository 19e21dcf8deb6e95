//! An exam taken by a person, graded later.

use crate::person::Person;
use vstd::prelude::*;

verus! {

/// What a certificate for an exam would say: the exam has not been
/// taken yet, or it was passed or failed with the recorded grade.
/// A grade counts as passing when it is at most 4.
#[derive(Clone, Copy, Debug, PartialEq, Eq, Structural)]
pub enum CertificateStatus {
    NotTaken,
    Passed(u8),
    Failed(u8),
}

/// An exam: who takes it, in which subject, and the grade once one
/// has been set.
pub struct Exam {
    attendee: Person,
    subject: String,
    grade: Option<u8>,
}

impl Exam {
    /// The person taking the exam.
    pub closed spec fn spec_attendee(&self) -> Person {
        self.attendee
    }

    /// The subject of the exam.
    pub closed spec fn spec_subject(&self) -> Seq<char> {
        self.subject@
    }

    /// The grade, once set.
    pub closed spec fn spec_grade(&self) -> Option<u8> {
        self.grade
    }

    /// Builds an ungraded exam for `attendee` in `subject`.
    pub fn new(attendee: Person, subject: &str) -> (r: Self)
        ensures
            r.spec_attendee() == attendee,
            r.spec_subject() == subject@,
            r.spec_grade() is None,
    {
        Exam { attendee, subject: subject.to_owned(), grade: None }
    }

    /// Records `grade` for the exam, replacing any earlier grade.
    pub fn set_grade(&mut self, grade: u8)
        ensures
            final(self).spec_grade() == Some(grade),
            final(self).spec_attendee() == old(self).spec_attendee(),
            final(self).spec_subject() == old(self).spec_subject(),
    {
        self.grade = Some(grade);
    }

    /// What a certificate would say: not taken while no grade is set;
    /// otherwise passed with the grade when it is at most 4, failed
    /// with the grade when it is above 4.
    pub fn certificate_status(&self) -> (r: CertificateStatus)
        ensures
            r == (match self.spec_grade() {
                None => CertificateStatus::NotTaken,
                Some(g) => if g > 4 {
                    CertificateStatus::Failed(g)
                } else {
                    CertificateStatus::Passed(g)
                },
            }),
    {
        match self.grade {
            None => CertificateStatus::NotTaken,
            Some(g) => if g > 4 {
                CertificateStatus::Failed(g)
            } else {
                CertificateStatus::Passed(g)
            },
        }
    }

    /// Borrows the attendee's name.
    pub fn attendee_name(&self) -> (r: &str)
        ensures
            r@ == self.spec_attendee().name@,
    {
        self.attendee.name.as_str()
    }

    /// Borrows the subject.
    pub fn subject(&self) -> (r: &str)
        ensures
            r@ == self.spec_subject(),
    {
        self.subject.as_str()
    }
}

} // verus!
