use vstd::prelude::*;

verus! {

/// Milliseconds since the Unix epoch.
pub type Timestamp = i64;

/// Whether two strings hold the same characters.
pub fn same_text(a: &str, b: &str) -> (r: bool)
    ensures
        r == (a@ == b@),
{
    let n = a.unicode_len();
    if n != b.unicode_len() {
        return false;
    }
    let mut i: usize = 0;
    while i < n
        invariant
            n == a@.len() == b@.len(),
            i <= n,
            forall|j: int| 0 <= j < i ==> a@[j] == b@[j],
        decreases n - i,
    {
        if a.get_char(i) != b.get_char(i) {
            return false;
        }
        i = i + 1;
    }
    assert(a@ =~= b@);
    true
}

/// The category a submission was sorted into by a user.
#[derive(Clone, Copy, Debug, PartialEq, Eq, Structural)]
pub enum Category {
    Unsorted,
    Poetry,
    Fiction,
    PersonalEssay,
}

/// The small-integer code under which a category is persisted.
pub open spec fn category_code(c: Category) -> i16 {
    match c {
        Category::Unsorted => 0,
        Category::Poetry => 1,
        Category::Fiction => 2,
        Category::PersonalEssay => 3,
    }
}

impl Category {
    /// The persisted code of this category.
    pub fn to_code(&self) -> (r: i16)
        ensures
            r == category_code(*self),
    {
        match self {
            Category::Unsorted => 0,
            Category::Poetry => 1,
            Category::Fiction => 2,
            Category::PersonalEssay => 3,
        }
    }

    /// The category stored under `code`; `None` for an unknown code.
    pub fn from_code(code: i16) -> (r: Option<Category>)
        ensures
            match r {
                Some(c) => category_code(c) == code,
                None => !(0 <= code <= 3),
            },
    {
        match code {
            0 => Some(Category::Unsorted),
            1 => Some(Category::Poetry),
            2 => Some(Category::Fiction),
            3 => Some(Category::PersonalEssay),
            _ => None,
        }
    }
}

impl Default for Category {
    fn default() -> (r: Category)
        ensures
            r == Category::Unsorted,
    {
        Category::Unsorted
    }
}

/// One tracked submission, as stored.
#[derive(Debug)]
pub struct Submission {
    pub guid: String,
    pub realname: String,
    pub username: String,
    pub latest_published_version: String,
    pub latest_published_at: i64,
    pub clap_count: i32,
    pub title: String,
    pub img_id: String,
    pub word_count: i32,
    pub clap_count_last_updated_at: Timestamp,
    pub details_last_updated_at: Timestamp,
    pub category: Category,
}

impl Clone for Submission {
    fn clone(&self) -> (r: Submission)
        ensures
            r == *self,
    {
        Submission {
            guid: self.guid.clone(),
            realname: self.realname.clone(),
            username: self.username.clone(),
            latest_published_version: self.latest_published_version.clone(),
            latest_published_at: self.latest_published_at,
            clap_count: self.clap_count,
            title: self.title.clone(),
            img_id: self.img_id.clone(),
            word_count: self.word_count,
            clap_count_last_updated_at: self.clap_count_last_updated_at,
            details_last_updated_at: self.details_last_updated_at,
            category: self.category,
        }
    }
}

/// The fields of a new submission as fetched from the platform; freshness
/// stamps and category take their defaults on insertion.
#[derive(Debug)]
pub struct InsertSubmission {
    pub guid: String,
    pub realname: String,
    pub username: String,
    pub latest_published_version: String,
    pub latest_published_at: i64,
    pub clap_count: i32,
    pub title: String,
    pub img_id: String,
    pub word_count: i32,
}

impl Clone for InsertSubmission {
    fn clone(&self) -> (r: InsertSubmission)
        ensures
            r == *self,
    {
        InsertSubmission {
            guid: self.guid.clone(),
            realname: self.realname.clone(),
            username: self.username.clone(),
            latest_published_version: self.latest_published_version.clone(),
            latest_published_at: self.latest_published_at,
            clap_count: self.clap_count,
            title: self.title.clone(),
            img_id: self.img_id.clone(),
            word_count: self.word_count,
        }
    }
}

/// A history row to append: the clap count observed for a submission.
#[derive(Debug)]
pub struct InsertClapHistory {
    pub guid: String,
    pub clap_count: i32,
}

/// A stored history row.
#[derive(Debug)]
pub struct ClapHistory {
    pub guid: String,
    pub clap_count: i32,
    pub timestamp: Timestamp,
}

/// The row that inserting `d` at time `now` creates.
pub open spec fn new_row(d: InsertSubmission, now: Timestamp) -> Submission {
    Submission {
        guid: d.guid,
        realname: d.realname,
        username: d.username,
        latest_published_version: d.latest_published_version,
        latest_published_at: d.latest_published_at,
        clap_count: d.clap_count,
        title: d.title,
        img_id: d.img_id,
        word_count: d.word_count,
        clap_count_last_updated_at: now,
        details_last_updated_at: now,
        category: Category::Unsorted,
    }
}

impl Submission {
    /// The row for a freshly discovered submission, stamped `now`.
    pub fn from_insert(d: InsertSubmission, now: Timestamp) -> (r: Submission)
        ensures
            r == new_row(d, now),
    {
        Submission {
            guid: d.guid,
            realname: d.realname,
            username: d.username,
            latest_published_version: d.latest_published_version,
            latest_published_at: d.latest_published_at,
            clap_count: d.clap_count,
            title: d.title,
            img_id: d.img_id,
            word_count: d.word_count,
            clap_count_last_updated_at: now,
            details_last_updated_at: now,
            category: Category::Unsorted,
        }
    }
}

} // verus!
