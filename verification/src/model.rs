//! The two response shapes the client consumes, and their rendering.
//!
//! Both are built per request from a decoded API response and discarded
//! after the terminal render; nothing is cached or persisted.

use vstd::prelude::*;
use crate::text::{dec_digits, u64_to_string};

verus! {

/// Minimal identity projection of an account, as the search endpoint
/// returns it: enough to redisplay and to key a follow-up lookup.
pub struct UserSummary {
    pub login: String,
}

/// First page of a user search: the server's total match count and the
/// returned items in server-supplied order.
pub struct SearchResult {
    pub total_count: u64,
    pub items: Vec<UserSummary>,
}

/// Full projection of an account, as the user endpoint returns it.
/// Optional fields the response did not carry are `None`, never a
/// sentinel value.
pub struct UserProfile {
    pub login: String,
    pub name: Option<String>,
    pub bio: Option<String>,
    pub followers: Option<u64>,
    pub following: Option<u64>,
}

/// One rendered line: `label`, the value, and a line break.
pub open spec fn field_line(label: Seq<char>, value: Seq<char>) -> Seq<char> {
    label + value + "\n"@
}

/// The text a profile renders as: one line per populated field, in a
/// fixed order, absent fields skipped.
pub open spec fn render_profile_text(p: UserProfile) -> Seq<char> {
    field_line("login: "@, p.login@) + (match p.name {
        Some(n) => field_line("name: "@, n@),
        None => Seq::<char>::empty(),
    }) + (match p.bio {
        Some(b) => field_line("bio: "@, b@),
        None => Seq::<char>::empty(),
    }) + (match p.followers {
        Some(k) => field_line("followers: "@, dec_digits(k as nat)),
        None => Seq::<char>::empty(),
    }) + (match p.following {
        Some(k) => field_line("following: "@, dec_digits(k as nat)),
        None => Seq::<char>::empty(),
    })
}

impl UserProfile {
    /// Renders the profile for the terminal.
    #[verifier::rlimit(50)]
    pub fn render(&self) -> (s: String)
        ensures
            s@ == render_profile_text(*self),
    {
        let mut s = String::from_str("login: ");
        s.append(self.login.as_str());
        s.append("\n");
        let ghost part_login = field_line("login: "@, self.login@);
        proof {
            assert(s@ =~= part_login);
        }
        if let Some(n) = &self.name {
            s.append("name: ");
            s.append(n.as_str());
            s.append("\n");
        }
        let ghost part_name = (match &self.name {
            Some(n) => field_line("name: "@, n@),
            None => Seq::<char>::empty(),
        });
        proof {
            assert(s@ =~= part_login + part_name);
        }
        if let Some(b) = &self.bio {
            s.append("bio: ");
            s.append(b.as_str());
            s.append("\n");
        }
        let ghost part_bio = (match &self.bio {
            Some(b) => field_line("bio: "@, b@),
            None => Seq::<char>::empty(),
        });
        proof {
            assert(s@ =~= part_login + part_name + part_bio);
        }
        if let Some(k) = self.followers {
            s.append("followers: ");
            let num = u64_to_string(k);
            s.append(num.as_str());
            s.append("\n");
        }
        let ghost part_followers = (match self.followers {
            Some(k) => field_line("followers: "@, dec_digits(k as nat)),
            None => Seq::<char>::empty(),
        });
        proof {
            assert(s@ =~= part_login + part_name + part_bio + part_followers);
        }
        if let Some(k) = self.following {
            s.append("following: ");
            let num = u64_to_string(k);
            s.append(num.as_str());
            s.append("\n");
        }
        proof {
            assert(s@ =~= render_profile_text(*self));
        }
        s
    }
}

/// The labels under which search items are offered for selection:
/// one entry per item, in server-supplied order, showing the login.
pub fn item_labels(items: &Vec<UserSummary>) -> (labels: Vec<String>)
    ensures
        labels@.len() == items@.len(),
        forall|i: int| 0 <= i < items@.len() ==> labels@[i]@ == items@[i].login@,
{
    let mut labels: Vec<String> = Vec::new();
    let mut idx: usize = 0;
    while idx < items.len()
        invariant
            idx <= items@.len(),
            labels@.len() == idx,
            forall|i: int| 0 <= i < idx ==> labels@[i]@ == items@[i].login@,
        decreases items@.len() - idx,
    {
        labels.push(items[idx].login.clone());
        idx = idx + 1;
    }
    labels
}

} // verus!
