use vstd::prelude::*;

verus! {

/// One member's entry in the phone book.
pub struct MemberInfo {
    pub name: String,
    pub student_number: String,
    pub phone: String,
}

impl MemberInfo {
    pub fn new(name: String, student_number: String, phone: String) -> (r: MemberInfo)
        ensures
            r.name == name,
            r.student_number == student_number,
            r.phone == phone,
    {
        MemberInfo { name, student_number, phone }
    }
}

} // verus!
