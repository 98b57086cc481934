use vstd::prelude::*;
use vstd::string::*;

verus! {

/// Whether `c` carries the Unicode `White_Space` property, the set of
/// characters that `char::is_whitespace` and `str::trim` recognise.
pub open spec fn is_white_space(c: char) -> bool {
    let n = c as u32;
    ||| 0x9 <= n <= 0xd
    ||| n == 0x20
    ||| n == 0x85
    ||| n == 0xa0
    ||| n == 0x1680
    ||| 0x2000 <= n <= 0x200a
    ||| n == 0x2028
    ||| n == 0x2029
    ||| n == 0x202f
    ||| n == 0x205f
    ||| n == 0x3000
}

/// A text is blank when trimming it leaves nothing: it is empty or holds only white space.
pub open spec fn is_blank(s: Seq<char>) -> bool {
    forall|i: int| 0 <= i < s.len() ==> #[trigger] is_white_space(s[i])
}

/// Decides `is_white_space` for one character.
pub fn char_is_white_space(c: char) -> (r: bool)
    ensures
        r == is_white_space(c),
{
    let n: u32 = c as u32;
    (0x9 <= n && n <= 0xd) || n == 0x20 || n == 0x85 || n == 0xa0 || n == 0x1680
        || (0x2000 <= n && n <= 0x200a) || n == 0x2028 || n == 0x2029 || n == 0x202f
        || n == 0x205f || n == 0x3000
}

/// Decides whether `s.trim()` would be empty.
pub fn text_is_blank(s: &str) -> (r: bool)
    ensures
        r == is_blank(s@),
{
    let mut all_white: bool = true;
    for c in it: s.chars()
        invariant
            it.seq() == s@,
            all_white == (forall|j: int| 0 <= j < it.index() ==> #[trigger] is_white_space(s@[j])),
    {
        if !char_is_white_space(c) {
            all_white = false;
        }
    }
    all_white
}

/// The message with which a blank username is refused.
pub open spec fn blank_username_message() -> Seq<char> {
    "Username is empty or contains only whitespace."@
}

/// The message with which a blank task title is refused.
pub open spec fn blank_title_message() -> Seq<char> {
    "Title is empty or contains only whitespace."@
}

/// A password as the user typed it.
pub struct CleartextPassword(String);

impl View for CleartextPassword {
    type V = Seq<char>;

    closed spec fn view(&self) -> Seq<char> {
        self.0@
    }
}

impl CleartextPassword {
    /// Wraps any text: every password is accepted as it is.
    pub fn new(password: String) -> (r: Self)
        ensures
            r@ == password@,
    {
        Self(password)
    }

    /// The password text.
    pub fn text(&self) -> (r: &String)
        ensures
            r@ == self@,
    {
        &self.0
    }
}

impl AsRef<String> for CleartextPassword {
    fn as_ref(&self) -> (r: &String)
        ensures
            r@ == self@,
    {
        &self.0
    }
}

/// The name of an account: never blank.
pub struct Username(String);

impl View for Username {
    type V = Seq<char>;

    closed spec fn view(&self) -> Seq<char> {
        self.0@
    }
}

impl Username {
    /// Every `Username` is not blank.
    #[verifier::type_invariant]
    closed spec fn not_blank(self) -> bool {
        !is_blank(self.0@)
    }

    /// Accepts `username` unchanged unless it is blank.
    pub fn new(username: String) -> (r: Result<Self, String>)
        ensures
            r is Err <==> is_blank(username@),
            r matches Ok(u) ==> u@ == username@,
            r matches Err(m) ==> m@ == blank_username_message(),
    {
        if text_is_blank(username.as_str()) {
            let msg = String::from_str("Username is empty or contains only whitespace.");
            proof {
                reveal_strlit("Username is empty or contains only whitespace.");
            }
            Err(msg)
        } else {
            Ok(Self(username))
        }
    }

    /// The name's text, which is never blank.
    pub fn text(&self) -> (r: &String)
        ensures
            r@ == self@,
            !is_blank(r@),
    {
        proof {
            use_type_invariant(self);
        }
        &self.0
    }
}

impl AsRef<String> for Username {
    fn as_ref(&self) -> (r: &String)
        ensures
            r@ == self@,
            !is_blank(r@),
    {
        proof {
            use_type_invariant(self);
        }
        &self.0
    }
}

/// The free-form description of a task; any text, the empty one included.
pub struct TaskDescription(String);

impl View for TaskDescription {
    type V = Seq<char>;

    closed spec fn view(&self) -> Seq<char> {
        self.0@
    }
}

impl TaskDescription {
    /// Wraps any text unchanged.
    pub fn new(description: String) -> (r: Self)
        ensures
            r@ == description@,
    {
        Self(description)
    }

    /// The description's text.
    pub fn text(&self) -> (r: &String)
        ensures
            r@ == self@,
    {
        &self.0
    }

    /// Gives the text back.
    pub fn into_string(self) -> (r: String)
        ensures
            r@ == self@,
    {
        self.0
    }
}

impl AsRef<String> for TaskDescription {
    fn as_ref(&self) -> (r: &String)
        ensures
            r@ == self@,
    {
        &self.0
    }
}

impl From<TaskDescription> for String {
    fn from(value: TaskDescription) -> (r: String)
        ensures
            r@ == value@,
    {
        value.0
    }
}

impl vstd::std_specs::convert::FromSpecImpl<TaskDescription> for String {
    open spec fn obeys_from_spec() -> bool {
        true
    }

    closed spec fn from_spec(v: TaskDescription) -> String {
        v.0
    }
}

/// The title of a task: never blank.
pub struct TaskTitle(String);

impl View for TaskTitle {
    type V = Seq<char>;

    closed spec fn view(&self) -> Seq<char> {
        self.0@
    }
}

impl TaskTitle {
    /// Every `TaskTitle` is not blank.
    #[verifier::type_invariant]
    closed spec fn not_blank(self) -> bool {
        !is_blank(self.0@)
    }

    /// Accepts `title` unchanged unless it is blank.
    pub fn new(title: String) -> (r: Result<Self, String>)
        ensures
            r is Err <==> is_blank(title@),
            r matches Ok(t) ==> t@ == title@,
            r matches Err(m) ==> m@ == blank_title_message(),
    {
        if text_is_blank(title.as_str()) {
            let msg = String::from_str("Title is empty or contains only whitespace.");
            proof {
                reveal_strlit("Title is empty or contains only whitespace.");
            }
            Err(msg)
        } else {
            Ok(Self(title))
        }
    }

    /// The title's text, which is never blank.
    pub fn text(&self) -> (r: &String)
        ensures
            r@ == self@,
            !is_blank(r@),
    {
        proof {
            use_type_invariant(self);
        }
        &self.0
    }

    /// Gives the text back; it is never blank.
    pub fn into_string(self) -> (r: String)
        ensures
            r@ == self@,
            !is_blank(r@),
    {
        proof {
            use_type_invariant(&self);
        }
        self.0
    }
}

impl AsRef<String> for TaskTitle {
    fn as_ref(&self) -> (r: &String)
        ensures
            r@ == self@,
            !is_blank(r@),
    {
        proof {
            use_type_invariant(self);
        }
        &self.0
    }
}

impl From<TaskTitle> for String {
    fn from(value: TaskTitle) -> (r: String)
        ensures
            r@ == value@,
            !is_blank(r@),
    {
        proof {
            use_type_invariant(&value);
        }
        value.0
    }
}

impl vstd::std_specs::convert::FromSpecImpl<TaskTitle> for String {
    open spec fn obeys_from_spec() -> bool {
        true
    }

    closed spec fn from_spec(v: TaskTitle) -> String {
        v.0
    }
}

/// Blankness goes character by character: the empty text is blank, a single
/// character is blank exactly when it is white space, and two texts joined
/// are blank exactly when both are. So a text with one character that is not
/// white space is never blank.
pub proof fn law_blank_by_characters(s: Seq<char>, t: Seq<char>, c: char)
    ensures
        is_blank(Seq::empty()),
        is_blank(seq![c]) <==> is_white_space(c),
        is_blank(s + t) <==> (is_blank(s) && is_blank(t)),
        (exists|i: int| 0 <= i < s.len() && !is_white_space(#[trigger] s[i])) ==> !is_blank(s),
{
    let st = s + t;
    if is_blank(st) {
        assert forall|i: int| 0 <= i < s.len() implies #[trigger] is_white_space(s[i]) by {
            assert(st[i] == s[i]);
        }
        assert forall|i: int| 0 <= i < t.len() implies #[trigger] is_white_space(t[i]) by {
            assert(st[s.len() + i] == t[i]);
        }
    }
    if is_blank(s) && is_blank(t) {
        assert forall|i: int| 0 <= i < st.len() implies #[trigger] is_white_space(st[i]) by {
            if i < s.len() {
                assert(st[i] == s[i]);
            } else {
                assert(st[i] == t[i - s.len()]);
            }
        }
    }
    if is_white_space(c) {
        assert forall|i: int| 0 <= i < seq![c].len() implies #[trigger] is_white_space(seq![c][i]) by {
            assert(seq![c][i] == c);
        }
    }
    if is_blank(seq![c]) {
        assert(is_white_space(seq![c][0]));
    }
}

/// White space never includes the visible ASCII characters (digits, letters,
/// punctuation): none of them makes a text blank.
pub proof fn law_visible_ascii_is_not_white_space(c: char)
    requires
        0x21 <= c as u32 <= 0x7e,
    ensures
        !is_white_space(c),
{
}

} // verus!
