use vstd::prelude::*;

verus! {

/// A character allowed in a project name: a lowercase ASCII letter, a digit
/// or a dash.
pub open spec fn name_char(c: char) -> bool {
    ('a' <= c && c <= 'z') || ('0' <= c && c <= '9') || c == '-'
}

/// A DNS-safe project label: 3 to 63 allowed characters, neither the first
/// nor the last of them a dash.
pub open spec fn valid_project_name(s: Seq<char>) -> bool {
    &&& 3 <= s.len() <= 63
    &&& forall|i: int| 0 <= i < s.len() ==> name_char(#[trigger] s[i])
    &&& s[0] != '-'
    &&& s[s.len() - 1] != '-'
}

/// Why a text is not a valid project name.
#[derive(Clone, Copy, Debug, PartialEq, Eq, Structural)]
pub enum NameError {
    /// Fewer than 3 or more than 63 characters.
    Length,
    /// It starts or ends with a dash.
    DashAtEdge,
    /// It holds a character other than a lowercase letter, a digit or a dash.
    Character,
}

/// What is wrong with `s` as a project name, the first of length, edges and
/// characters that fails; none where it is valid.
pub open spec fn name_error(s: Seq<char>) -> Option<NameError> {
    if s.len() < 3 || s.len() > 63 {
        Some(NameError::Length)
    } else if s[0] == '-' || s[s.len() - 1] == '-' {
        Some(NameError::DashAtEdge)
    } else if exists|i: int| 0 <= i < s.len() && !name_char(#[trigger] s[i]) {
        Some(NameError::Character)
    } else {
        None
    }
}

/// Checks `s` as a project name, saying what is wrong with it.
pub fn check_project_name(s: &str) -> (r: Result<(), NameError>)
    ensures
        match r {
            Ok(()) => name_error(s@) is None,
            Err(e) => name_error(s@) == Some(e),
        },
        r is Ok <==> valid_project_name(s@),
{
    let n = s.unicode_len();
    if n < 3 || n > 63 {
        return Err(NameError::Length);
    }
    if s.get_char(0) == '-' || s.get_char(n - 1) == '-' {
        return Err(NameError::DashAtEdge);
    }
    let mut i: usize = 0;
    while i < n
        invariant
            n == s@.len(),
            3 <= n <= 63,
            s@[0] != '-',
            s@[n - 1] != '-',
            i <= n,
            forall|j: int| 0 <= j < i ==> name_char(#[trigger] s@[j]),
        decreases n - i,
    {
        let c = s.get_char(i);
        if !(('a' <= c && c <= 'z') || ('0' <= c && c <= '9') || c == '-') {
            assert(!name_char(s@[i as int]));
            return Err(NameError::Character);
        }
        i = i + 1;
    }
    Ok(())
}

/// Whether `s` is a valid project name.
pub fn is_valid_project_name(s: &str) -> (r: bool)
    ensures
        r == valid_project_name(s@),
{
    let n = s.unicode_len();
    if n < 3 || n > 63 {
        return false;
    }
    if s.get_char(0) == '-' || s.get_char(n - 1) == '-' {
        return false;
    }
    let mut i: usize = 0;
    while i < n
        invariant
            n == s@.len(),
            i <= n,
            forall|j: int| 0 <= j < i ==> name_char(#[trigger] s@[j]),
        decreases n - i,
    {
        let c = s.get_char(i);
        if !(('a' <= c && c <= 'z') || ('0' <= c && c <= '9') || c == '-') {
            return false;
        }
        i = i + 1;
    }
    true
}

/// A project name known to be valid.
#[derive(Clone, Debug)]
pub struct ProjectName {
    name: String,
}

impl ProjectName {
    pub closed spec fn view(&self) -> Seq<char> {
        self.name@
    }

    pub open spec fn wf(&self) -> bool {
        valid_project_name(self.view())
    }

    /// The project name `name`, if it is valid.
    pub fn parse(name: String) -> (r: Option<ProjectName>)
        ensures
            r is Some <==> valid_project_name(name@),
            r matches Some(p) ==> p.view() == name@ && p.wf(),
    {
        if is_valid_project_name(name.as_str()) {
            Some(ProjectName { name })
        } else {
            None
        }
    }

    /// The name as text.
    pub fn as_str(&self) -> (r: &str)
        ensures
            r@ == self.view(),
    {
        self.name.as_str()
    }
}

} // verus!
