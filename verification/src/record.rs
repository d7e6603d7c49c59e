//! The canonical flat record written to the log.

use vstd::prelude::*;

verus! {

/// The canonical record built from one accepted content event: an ordered
/// mapping with exactly five fixed fields. It is constructed fresh per
/// accepted event, handed to the append sink, then discarded.
pub struct Record {
    pub id: String,
    pub user: String,
    pub text: String,
    pub location: String,
    pub hashtags: String,
}

impl Record {
    /// The record as an ordered field-name/value list: exactly the five
    /// fields `id, user, text, location, hashtags`, in that insertion order.
    pub fn pairs(&self) -> (r: Vec<(String, String)>)
        ensures
            r@.len() == 5,
            r@[0].0@ == "id"@ && r@[0].1@ == self.id@,
            r@[1].0@ == "user"@ && r@[1].1@ == self.user@,
            r@[2].0@ == "text"@ && r@[2].1@ == self.text@,
            r@[3].0@ == "location"@ && r@[3].1@ == self.location@,
            r@[4].0@ == "hashtags"@ && r@[4].1@ == self.hashtags@,
    {
        let mut r: Vec<(String, String)> = Vec::new();
        r.push((String::from_str("id"), self.id.clone()));
        r.push((String::from_str("user"), self.user.clone()));
        r.push((String::from_str("text"), self.text.clone()));
        r.push((String::from_str("location"), self.location.clone()));
        r.push((String::from_str("hashtags"), self.hashtags.clone()));
        r
    }
}

} // verus!
