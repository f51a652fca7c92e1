//! The flags of one filter clause: which fields it looks at, and how it compares.
use vstd::prelude::*;

verus! {

/// Field selectors (`sha`, `author`, `message`, `tags`) and modifiers
/// (`not`, `case_sensitive`) of a filter clause.
#[derive(Clone, Copy, Debug, PartialEq, Eq, Structural)]
pub struct FilterBy {
    pub sha: bool,
    pub author: bool,
    pub message: bool,
    pub tags: bool,
    pub not: bool,
    pub case_sensitive: bool,
}

/// A flag letter that names no flag.
#[derive(Clone, Copy, Debug, PartialEq, Eq, Structural)]
pub struct UnknownFlag {
    pub flag: char,
}

impl FilterBy {
    /// Every field selector, compared case-insensitively, not negated.
    pub open spec fn everywhere_spec() -> FilterBy {
        FilterBy {
            sha: true,
            author: true,
            message: true,
            tags: true,
            not: false,
            case_sensitive: false,
        }
    }

    /// The three text fields, compared case-insensitively, not negated.
    pub open spec fn default_spec() -> FilterBy {
        FilterBy {
            sha: true,
            author: true,
            message: true,
            tags: false,
            not: false,
            case_sensitive: false,
        }
    }

    /// No flag at all.
    pub open spec fn empty_spec() -> FilterBy {
        FilterBy {
            sha: false,
            author: false,
            message: false,
            tags: false,
            not: false,
            case_sensitive: false,
        }
    }

    /// The flag that a letter stands for.
    pub open spec fn from_char_spec(v: char) -> Option<FilterBy> {
        let e = FilterBy::empty_spec();
        if v == 's' {
            Some(FilterBy { sha: true, ..e })
        } else if v == 'a' {
            Some(FilterBy { author: true, ..e })
        } else if v == 'm' {
            Some(FilterBy { message: true, ..e })
        } else if v == '!' {
            Some(FilterBy { not: true, ..e })
        } else if v == 'c' {
            Some(FilterBy { case_sensitive: true, ..e })
        } else if v == 't' {
            Some(FilterBy { tags: true, ..e })
        } else {
            None
        }
    }

    /// Every field selector, with no modifier.
    pub fn everywhere() -> (r: Self)
        ensures
            r == FilterBy::everywhere_spec(),
    {
        FilterBy {
            sha: true,
            author: true,
            message: true,
            tags: true,
            not: false,
            case_sensitive: false,
        }
    }

    /// No flag at all.
    pub fn empty() -> (r: Self)
        ensures
            r == FilterBy::empty_spec(),
    {
        FilterBy {
            sha: false,
            author: false,
            message: false,
            tags: false,
            not: false,
            case_sensitive: false,
        }
    }

    /// The same field selectors, with both modifiers cleared.
    pub fn exclude_modifiers(self) -> (r: Self)
        ensures
            r == (FilterBy { not: false, case_sensitive: false, ..self }),
    {
        FilterBy { not: false, case_sensitive: false, ..self }
    }

    /// Every flag set in either operand.
    pub fn union(self, other: Self) -> (r: Self)
        ensures
            r.sha == (self.sha || other.sha),
            r.author == (self.author || other.author),
            r.message == (self.message || other.message),
            r.tags == (self.tags || other.tags),
            r.not == (self.not || other.not),
            r.case_sensitive == (self.case_sensitive || other.case_sensitive),
    {
        FilterBy {
            sha: self.sha || other.sha,
            author: self.author || other.author,
            message: self.message || other.message,
            tags: self.tags || other.tags,
            not: self.not || other.not,
            case_sensitive: self.case_sensitive || other.case_sensitive,
        }
    }

    /// Reads one flag letter: `s` sha, `a` author, `m` message, `!` negate,
    /// `c` case-sensitive, `t` tags.
    pub fn try_from_char(v: char) -> (r: Result<Self, UnknownFlag>)
        ensures
            r matches Ok(f) ==> FilterBy::from_char_spec(v) == Some(f),
            r matches Err(e) ==> FilterBy::from_char_spec(v) is None && e.flag == v,
    {
        let e = FilterBy::empty();
        match v {
            's' => Ok(FilterBy { sha: true, ..e }),
            'a' => Ok(FilterBy { author: true, ..e }),
            'm' => Ok(FilterBy { message: true, ..e }),
            '!' => Ok(FilterBy { not: true, ..e }),
            'c' => Ok(FilterBy { case_sensitive: true, ..e }),
            't' => Ok(FilterBy { tags: true, ..e }),
            _ => Err(UnknownFlag { flag: v }),
        }
    }
}

impl Default for FilterBy {
    /// The three text fields, compared case-insensitively, not negated.
    fn default() -> (r: Self)
        ensures
            r == FilterBy::default_spec(),
    {
        FilterBy {
            sha: true,
            author: true,
            message: true,
            tags: false,
            not: false,
            case_sensitive: false,
        }
    }
}

} // verus!
