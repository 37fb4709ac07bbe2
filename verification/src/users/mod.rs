//! Who has been seen in chat before.
//!
//! The known users are kept in the order in which the standard library sorts
//! strings, each once, so that the stored form is the list as it stands.

pub mod welcome;

pub use welcome::WelcomeService;

use crate::text::{join_text, split_text, text_lt, trim_text};
use vstd::prelude::*;

verus! {

/// Every name comes before the names after it.
pub open spec fn strictly_sorted(names: Seq<Seq<char>>) -> bool {
    forall|i: int, j: int| 0 <= i < j < names.len() ==> text_lt(names[i], names[j])
}

/// `names` with `name` in its place, unless it is there already.
pub open spec fn insert_sorted(names: Seq<Seq<char>>, name: Seq<char>) -> Seq<Seq<char>>
    decreases names.len(),
{
    if names.len() == 0 {
        seq![name]
    } else if names[0] == name {
        names
    } else if text_lt(name, names[0]) {
        seq![name] + names
    } else {
        seq![names[0]] + insert_sorted(names.drop_first(), name)
    }
}

/// The names that a stored list holds: each line without the white space around
/// it, empty lines left out, every name once and in order.
pub open spec fn names_from(lines: Seq<Seq<char>>) -> Seq<Seq<char>>
    decreases lines.len(),
{
    if lines.len() == 0 {
        Seq::empty()
    } else {
        let name = trim_text(lines.last());
        if name.len() == 0 {
            names_from(lines.drop_last())
        } else {
            insert_sorted(names_from(lines.drop_last()), name)
        }
    }
}

/// The names that a stored text holds.
pub open spec fn names_in(content: Seq<char>) -> Seq<Seq<char>> {
    names_from(split_text(content, '\n'))
}

proof fn lemma_insert_at(names: Seq<Seq<char>>, name: Seq<char>, at: int)
    requires
        0 <= at <= names.len(),
        forall|k: int| 0 <= k < at ==> text_lt(#[trigger] names[k], name),
        at < names.len() ==> text_lt(name, names[at]),
    ensures
        insert_sorted(names, name) == names.insert(at, name),
    decreases at,
{
    if names.len() == 0 {
        assert(names.insert(0, name) =~= seq![name]);
    } else if at == 0 {
        crate::text::lemma_text_lt_irreflexive(name);
        assert(names.insert(0, name) =~= seq![name] + names);
    } else {
        assert(text_lt(names[0], name));
        crate::text::lemma_text_lt_irreflexive(name);
        if text_lt(name, names[0]) {
            crate::text::lemma_text_lt_transitive(name, names[0], name);
        }
        let rest = names.drop_first();
        assert forall|k: int| 0 <= k < at - 1 implies text_lt(#[trigger] rest[k], name) by {
            assert(rest[k] == names[k + 1]);
        }
        lemma_insert_at(rest, name, at - 1);
        assert(seq![names[0]] + rest.insert(at - 1, name) =~= names.insert(at, name));
    }
}

proof fn lemma_insert_present(names: Seq<Seq<char>>, name: Seq<char>, at: int)
    requires
        0 <= at < names.len(),
        forall|k: int| 0 <= k < at ==> text_lt(#[trigger] names[k], name),
        names[at] == name,
    ensures
        insert_sorted(names, name) == names,
    decreases at,
{
    if at > 0 {
        assert(text_lt(names[0], name));
        crate::text::lemma_text_lt_irreflexive(name);
        if text_lt(name, names[0]) {
            crate::text::lemma_text_lt_transitive(name, names[0], name);
        }
        let rest = names.drop_first();
        assert forall|k: int| 0 <= k < at - 1 implies text_lt(#[trigger] rest[k], name) by {
            assert(rest[k] == names[k + 1]);
        }
        lemma_insert_present(rest, name, at - 1);
        assert(seq![names[0]] + rest =~= names);
    }
}

proof fn lemma_insert_keeps_order(names: Seq<Seq<char>>, name: Seq<char>, at: int)
    requires
        strictly_sorted(names),
        0 <= at <= names.len(),
        forall|k: int| 0 <= k < at ==> text_lt(#[trigger] names[k], name),
        at < names.len() ==> text_lt(name, names[at]),
    ensures
        strictly_sorted(names.insert(at, name)),
{
    let after = names.insert(at, name);
    assert forall|i: int, j: int| 0 <= i < j < after.len() implies text_lt(after[i], after[j]) by {
        if j == at {
            assert(after[i] == names[i]);
        } else if i == at {
            assert(after[j] == names[j - 1]);
            if j - 1 > at {
                crate::text::lemma_text_lt_transitive(name, names[at], names[j - 1]);
            }
        } else if i < at && j > at {
            assert(after[i] == names[i] && after[j] == names[j - 1]);
        } else if i < at {
            assert(after[i] == names[i] && after[j] == names[j]);
        } else {
            assert(after[i] == names[i - 1] && after[j] == names[j - 1]);
        }
    }
}

/// A name is in the list after an insertion if it was there before or is the one
/// that was inserted, and only then.
pub proof fn lemma_insert_sorted_contains(names: Seq<Seq<char>>, name: Seq<char>, other: Seq<char>)
    ensures
        insert_sorted(names, name).contains(other) <==> (names.contains(other) || other == name),
    decreases names.len(),
{
    let after = insert_sorted(names, name);
    if names.len() == 0 {
        assert(after[0] == name);
    } else if names[0] == name {
        assert(names.contains(name));
    } else if text_lt(name, names[0]) {
        assert(after[0] == name);
        if names.contains(other) {
            let k = choose|k: int| 0 <= k < names.len() && names[k] == other;
            assert(after[k + 1] == other);
        }
        if after.contains(other) {
            let k = choose|k: int| 0 <= k < after.len() && after[k] == other;
            if k > 0 {
                assert(names[k - 1] == other);
            }
        }
    } else {
        let rest = names.drop_first();
        let inner = insert_sorted(rest, name);
        lemma_insert_sorted_contains(rest, name, other);
        assert(after[0] == names[0]);
        if after.contains(other) {
            let k = choose|k: int| 0 <= k < after.len() && after[k] == other;
            if k > 0 {
                assert(inner[k - 1] == other);
                if rest.contains(other) {
                    let m = choose|m: int| 0 <= m < rest.len() && rest[m] == other;
                    assert(names[m + 1] == other);
                }
            }
        }
        if names.contains(other) {
            let k = choose|k: int| 0 <= k < names.len() && names[k] == other;
            if k > 0 {
                assert(rest[k - 1] == other);
                let m = choose|m: int| 0 <= m < inner.len() && inner[m] == other;
                assert(after[m + 1] == other);
            }
        }
        if other == name {
            let m = choose|m: int| 0 <= m < inner.len() && inner[m] == other;
            assert(after[m + 1] == other);
        }
    }
}

/// The users that have been seen, and where the list of them is stored.
pub struct UserManager {
    known_users: Vec<String>,
    users_file_path: String,
}

pub struct UserManagerView {
    pub known_users: Seq<Seq<char>>,
    pub users_file_path: Seq<char>,
}

impl View for UserManager {
    type V = UserManagerView;

    closed spec fn view(&self) -> UserManagerView {
        UserManagerView {
            known_users: self.known_users.deep_view(),
            users_file_path: self.users_file_path@,
        }
    }
}

impl UserManager {
    #[verifier::type_invariant]
    spec fn sorted(self) -> bool {
        strictly_sorted(self.known_users.deep_view())
    }

    /// A manager that knows nobody yet and stores its list at `users_file_path`.
    pub fn new(users_file_path: &str) -> (r: Self)
        ensures
            r@ == (UserManagerView {
                known_users: Seq::empty(),
                users_file_path: users_file_path@,
            }),
    {
        let known_users: Vec<String> = Vec::new();
        assert(known_users.deep_view() =~= Seq::empty());
        UserManager { known_users, users_file_path: String::from_str(users_file_path) }
    }

    /// Where the list is stored.
    pub fn users_file_path(&self) -> (r: &str)
        ensures
            r@ == self@.users_file_path,
    {
        self.users_file_path.as_str()
    }

    /// The known users, in order and each once.
    pub fn known_users(&self) -> (r: &Vec<String>)
        ensures
            r.deep_view() == self@.known_users,
            strictly_sorted(self@.known_users),
    {
        proof {
            use_type_invariant(self);
        }
        &self.known_users
    }

    /// Whether `user_id` has been seen before.
    pub fn is_known(&self, user_id: &str) -> (r: bool)
        ensures
            r == self@.known_users.contains(user_id@),
    {
        let mut i: usize = 0;
        while i < self.known_users.len()
            invariant
                i <= self.known_users.len(),
                forall|k: int| 0 <= k < i ==> self.known_users.deep_view()[k] != user_id@,
            decreases self.known_users.len() - i,
        {
            if crate::text::equal(self.known_users[i].as_str(), user_id) {
                assert(self.known_users.deep_view()[i as int] == user_id@);
                return true;
            }
            i += 1;
        }
        false
    }

    /// Whether this is the first time that `user_id` is seen. From now on the user
    /// is known.
    pub fn is_first_time_chatter(&mut self, user_id: &str) -> (r: bool)
        ensures
            r == !old(self)@.known_users.contains(user_id@),
            final(self)@.known_users == insert_sorted(old(self)@.known_users, user_id@),
            final(self)@.users_file_path == old(self)@.users_file_path,
    {
        proof {
            use_type_invariant(&*self);
        }
        let ghost names = self.known_users.deep_view();
        let mut at: usize = 0;
        while at < self.known_users.len() && crate::text::less_than(
            self.known_users[at].as_str(),
            user_id,
        )
            invariant
                at <= self.known_users.len(),
                names == self.known_users.deep_view(),
                forall|k: int| 0 <= k < at ==> text_lt(#[trigger] names[k], user_id@),
            decreases self.known_users.len() - at,
        {
            at += 1;
        }
        proof {
            lemma_insert_sorted_contains(names, user_id@, user_id@);
        }
        if at < self.known_users.len() && !crate::text::less_than(
            user_id,
            self.known_users[at].as_str(),
        ) {
            proof {
                crate::text::lemma_text_lt_total(names[at as int], user_id@);
                lemma_insert_present(names, user_id@, at as int);
            }
            return false;
        }
        proof {
            lemma_insert_at(names, user_id@, at as int);
            lemma_insert_keeps_order(names, user_id@, at as int);
            assert(!names.contains(user_id@)) by {
                if names.contains(user_id@) {
                    let k = choose|k: int| 0 <= k < names.len() && names[k] == user_id@;
                    crate::text::lemma_text_lt_irreflexive(user_id@);
                    if k >= at {
                        if k > at {
                            assert(text_lt(names[at as int], names[k]));
                            crate::text::lemma_text_lt_transitive(
                                user_id@,
                                names[at as int],
                                user_id@,
                            );
                        }
                    }
                }
            }
        }
        let empty: Vec<String> = Vec::new();
        assert(empty.deep_view() =~= Seq::empty());
        let mut taken = UserManager { known_users: empty, users_file_path: String::new() };
        core::mem::swap(self, &mut taken);
        let UserManager { mut known_users, users_file_path } = taken;
        known_users.insert(at, String::from_str(user_id));
        assert(known_users.deep_view() =~= names.insert(at as int, user_id@));
        *self = UserManager { known_users, users_file_path };
        true
    }

    /// Takes the known users from a stored text: see `names_in`. `None` stands
    /// for a store that does not exist yet, which changes nothing.
    pub fn load(&mut self, content: Option<&str>)
        ensures
            final(self)@.users_file_path == old(self)@.users_file_path,
            final(self)@.known_users == match content {
                Some(text) => names_in(text@),
                None => old(self)@.known_users,
            },
    {
        let text = match content {
            Some(text) => text,
            None => {
                return ;
            },
        };
        let lines = crate::text::split(text, '\n');
        let mut fresh = UserManager::new(self.users_file_path.as_str());
        let mut i: usize = 0;
        while i < lines.len()
            invariant
                i <= lines.len(),
                fresh@.users_file_path == self@.users_file_path,
                fresh@.known_users == names_from(lines.deep_view().take(i as int)),
            decreases lines.len() - i,
        {
            let name = crate::text::trim(lines[i].as_str());
            proof {
                let upto = lines.deep_view().take(i + 1);
                assert(upto.drop_last() =~= lines.deep_view().take(i as int));
                assert(upto.last() == lines[i as int]@);
            }
            if name.as_str().unicode_len() > 0 {
                fresh.is_first_time_chatter(name.as_str());
            }
            i += 1;
        }
        assert(lines.deep_view().take(lines.len() as int) =~= lines.deep_view());
        *self = fresh;
    }

    /// The text to store: the known users in order, one to a line.
    pub fn save(&self) -> (r: String)
        ensures
            r@ == join_text(self@.known_users, "\n"@),
    {
        crate::text::join(&self.known_users, "\n")
    }
}

/// A name as the stored list holds it: not empty, without white space at either
/// end, and on one line.
pub open spec fn is_stored_name(name: Seq<char>) -> bool {
    &&& name.len() > 0
    &&& trim_text(name) == name
    &&& forall|k: int| 0 <= k < name.len() ==> name[k] != '\n'
}

proof fn lemma_lines_of_joined(names: Seq<Seq<char>>)
    requires
        names.len() > 0,
        forall|i: int| 0 <= i < names.len() ==> is_stored_name(#[trigger] names[i]),
    ensures
        split_text(join_text(names, "\n"@), '\n') == names,
    decreases names.len(),
{
    reveal_strlit("\n");
    assert("\n"@ =~= seq!['\n']);
    assert(is_stored_name(names.last()));
    crate::text::lemma_split_whole(names.last(), '\n');
    if names.len() == 1 {
        assert(names =~= seq![names[0]]);
    } else {
        let front = names.drop_last();
        assert forall|i: int| 0 <= i < front.len() implies is_stored_name(#[trigger] front[i]) by {
            assert(front[i] == names[i]);
        }
        lemma_lines_of_joined(front);
        crate::text::lemma_split_joined(join_text(front, "\n"@), names.last(), '\n');
        assert(front + seq![names.last()] =~= names);
    }
}

proof fn lemma_names_from_stored(names: Seq<Seq<char>>)
    requires
        strictly_sorted(names),
        forall|i: int| 0 <= i < names.len() ==> is_stored_name(#[trigger] names[i]),
    ensures
        names_from(names) == names,
    decreases names.len(),
{
    if names.len() == 0 {
        assert(names =~= Seq::empty());
    } else {
        let front = names.drop_last();
        assert(is_stored_name(names.last()));
        assert forall|i: int| 0 <= i < front.len() implies is_stored_name(#[trigger] front[i]) by {
            assert(front[i] == names[i]);
        }
        assert(strictly_sorted(front)) by {
            assert forall|i: int, j: int| 0 <= i < j < front.len() implies text_lt(
                front[i],
                front[j],
            ) by {
                assert(front[i] == names[i] && front[j] == names[j]);
            }
        }
        lemma_names_from_stored(front);
        assert forall|k: int| 0 <= k < front.len() implies text_lt(
            #[trigger] front[k],
            names.last(),
        ) by {
            assert(front[k] == names[k]);
        }
        lemma_insert_at(front, names.last(), front.len() as int);
        assert(front.insert(front.len() as int, names.last()) =~= names);
    }
}

/// What is saved loads back: the text that holds a list of users, one to a line and
/// in order, reads as that list, provided that every name can be stored as it is,
/// which a name of white space, one that begins or ends with white space, and one
/// with a line break in it cannot.
pub proof fn saved_users_load_back(names: Seq<Seq<char>>)
    requires
        strictly_sorted(names),
        forall|i: int| 0 <= i < names.len() ==> is_stored_name(#[trigger] names[i]),
    ensures
        names_in(join_text(names, "\n"@)) == names,
{
    lemma_names_from_stored(names);
    if names.len() == 0 {
        let empty = Seq::<char>::empty();
        assert(join_text(names, "\n"@) =~= empty);
        crate::text::lemma_split_whole(empty, '\n');
        assert(seq![empty].drop_last() =~= Seq::<Seq<char>>::empty());
        assert(names_from(seq![empty]) == names_from(Seq::<Seq<char>>::empty()));
        assert(names =~= Seq::empty());
    } else {
        lemma_lines_of_joined(names);
    }
}

} // verus!
