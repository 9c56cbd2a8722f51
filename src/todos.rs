//! The to-do store of the example application.
use vstd::prelude::*;
use crate::text::chars_of;

verus! {

/// One to-do entry.
#[derive(Debug)]
pub struct Todo {
    pub id: usize,
    pub title: String,
    pub slug: String,
    pub content: String,
}

/// What `str::to_lowercase` makes of a text.
pub uninterp spec fn lowercase_of(s: Seq<char>) -> Seq<char>;

/// Relies on `str::to_lowercase`: the lower-case form of the text, which
/// depends on its characters alone.
#[verifier::external_body]
fn lowercase(s: &str) -> (r: String)
    ensures
        r@ == lowercase_of(s@),
{
    s.to_lowercase()
}

/// Relies on `String::push`: appends one character.
#[verifier::external_body]
fn push_char(s: &mut String, c: char)
    ensures
        final(s)@ == old(s)@.push(c),
{
    s.push(c)
}

/// `s` with each space replaced by a dash.
pub open spec fn dashed(s: Seq<char>) -> Seq<char> {
    s.map_values(|c: char| if c == ' ' { '-' } else { c })
}

/// The slug of a title whose lower-case form is `lower`: each space becomes
/// a dash.
pub fn slug_from_lowercase(lower: &str) -> (r: String)
    ensures
        r@ == dashed(lower@),
{
    let cs = chars_of(lower);
    let mut r = String::new();
    let mut k: usize = 0;
    while k < cs.len()
        invariant
            cs@ == lower@,
            k <= cs@.len(),
            r@ == dashed(cs@.subrange(0, k as int)),
        decreases cs@.len() - k,
    {
        let c = cs[k];
        if c == ' ' {
            push_char(&mut r, '-');
        } else {
            push_char(&mut r, c);
        }
        assert(dashed(cs@.subrange(0, k + 1)) =~= dashed(cs@.subrange(0, k as int)).push(
            if c == ' ' { '-' } else { c },
        ));
        k = k + 1;
    }
    assert(cs@.subrange(0, k as int) =~= cs@);
    r
}

/// The to-do entries, in the order they were added, and the next id to hand
/// out. Ids start at 1.
pub struct TodoStore {
    todos: Vec<Todo>,
    next_id: usize,
}

impl TodoStore {
    /// The entries, in the order they were added.
    pub closed spec fn entries(&self) -> Seq<Todo> {
        self.todos@
    }

    /// The id the next entry gets.
    pub closed spec fn next(&self) -> nat {
        self.next_id as nat
    }

    /// An empty store whose first entry gets id 1.
    pub fn new() -> (r: TodoStore)
        ensures
            r.entries().len() == 0,
            r.next() == 1,
    {
        TodoStore { todos: Vec::new(), next_id: 1 }
    }

    /// The slug of a title: lower case, with each space replaced by a dash.
    pub fn generate_slug(title: &str) -> (r: String)
        ensures
            r@ == dashed(lowercase_of(title@)),
    {
        let lower = lowercase(title);
        slug_from_lowercase(lower.as_str())
    }

    /// Adds an entry with the next id, the title, its slug and the content,
    /// and returns it.
    pub fn add_todo(&mut self, title: &str, content: &str) -> (r: Todo)
        requires
            old(self).next() < usize::MAX,
        ensures
            r.id == old(self).next(),
            r.title@ == title@,
            r.slug@ == dashed(lowercase_of(title@)),
            r.content@ == content@,
            final(self).next() == old(self).next() + 1,
            final(self).entries().len() == old(self).entries().len() + 1,
            final(self).entries().subrange(0, old(self).entries().len() as int) == old(
                self,
            ).entries(),
            ({
                let t = final(self).entries().last();
                t.id == r.id && t.title@ == r.title@ && t.slug@ == r.slug@ && t.content@
                    == r.content@
            }),
    {
        let id = self.next_id;
        let slug = Self::generate_slug(title);
        let stored = Todo {
            id,
            title: String::from_str(title),
            slug: slug.clone(),
            content: String::from_str(content),
        };
        self.todos.push(stored);
        self.next_id = self.next_id + 1;
        let ghost n = self.todos@.len();
        assert(self.todos@.subrange(0, n - 1) =~= old(self).todos@);
        Todo { id, title: String::from_str(title), slug, content: String::from_str(content) }
    }

    /// The number of entries.
    pub fn len(&self) -> (r: usize)
        ensures
            r == self.entries().len(),
    {
        self.todos.len()
    }
}

} // verus!
