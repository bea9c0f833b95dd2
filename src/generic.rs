use vstd::prelude::*;

verus! {

/// The university address of a student: `U`, the identifier, then the domain.
pub open spec fn student_email(student_id: Seq<char>) -> Seq<char> {
    "U"@ + student_id + "@unimail.hud.ac.uk"@
}

pub fn get_email_for_student(student_id: &str) -> (r: String)
    ensures
        r@ == student_email(student_id@),
{
    let mut email = "U".to_owned();
    email.append(student_id);
    email.append("@unimail.hud.ac.uk");
    email
}

} // verus!
