use vstd::prelude::*;

verus! {

/// What an author record holds, as mathematical values.
pub ghost struct AuthorView {
    pub name: Seq<char>,
    pub email: Seq<char>,
    pub active: bool,
}

/// The text `"Co-authored-by: {name} <{email}>"`.
pub open spec fn coauthor_text(a: AuthorView) -> Seq<char> {
    "Co-authored-by: "@ + display_text(a)
}

/// The text `"{name} <{email}>"`.
pub open spec fn display_text(a: AuthorView) -> Seq<char> {
    a.name + " <"@ + a.email + ">"@
}

/// One collaborator: a name, an email and whether they take part in the next commit.
#[derive(Debug)]
pub struct Author {
    name: String,
    email: String,
    active: bool,
}

impl View for Author {
    type V = AuthorView;

    closed spec fn view(&self) -> AuthorView {
        AuthorView { name: self.name@, email: self.email@, active: self.active }
    }
}

impl Author {
    /// Whether the author takes part in the next commit.
    pub fn active(&self) -> (r: bool)
        ensures
            r == self@.active,
    {
        self.active
    }

    /// The author's name, as given.
    pub fn name(&self) -> (r: &String)
        ensures
            r@ == self@.name,
    {
        &self.name
    }

    /// The author's email, as given.
    pub fn email(&self) -> (r: &String)
        ensures
            r@ == self@.email,
    {
        &self.email
    }

    /// A new, inactive author.
    pub fn new(name: String, email: String) -> (r: Author)
        ensures
            r@ == (AuthorView { name: name@, email: email@, active: false }),
    {
        Author { name, email, active: false }
    }

    /// A new author, active or not as `active` says.
    pub fn with_active_state(name: String, email: String, active: bool) -> (r: Author)
        ensures
            r@ == (AuthorView { name: name@, email: email@, active }),
    {
        Author { name, email, active }
    }

    /// Marks the author active; the name and email stay.
    pub fn activate(&mut self)
        ensures
            final(self)@ == (AuthorView { active: true, ..old(self)@ }),
    {
        self.active = true;
    }

    /// Marks the author inactive; the name and email stay.
    pub fn deactivate(&mut self)
        ensures
            final(self)@ == (AuthorView { active: false, ..old(self)@ }),
    {
        self.active = false;
    }

    /// The commit trailer that names this author.
    pub fn coauthor_string(&self) -> (r: String)
        ensures
            r@ == coauthor_text(self@),
    {
        let mut s = String::from_str("Co-authored-by: ");
        let shown = self.to_string();
        s.append(shown.as_str());
        s
    }

    /// The author as shown to a person: `name <email>`.
    pub fn to_string(&self) -> (r: String)
        ensures
            r@ == display_text(self@),
    {
        let mut s = self.name.clone();
        s.append(" <");
        s.append(self.email.as_str());
        s.append(">");
        s
    }
}

impl Default for Author {
    fn default() -> (r: Author)
        ensures
            r@ == (AuthorView { name: Seq::empty(), email: Seq::empty(), active: false }),
    {
        Author { name: String::new(), email: String::new(), active: false }
    }
}

} // verus!
