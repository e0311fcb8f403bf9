//! Sign and magnitude of a listener's reading, prefilter hits and errors.

use vstd::prelude::*;
use crate::text::str_eq;

verus! {

/// Whether the listener keeps the sign of the speaker's charge or flips it.
#[derive(Debug, Clone, Copy, PartialEq, Eq, Hash, Structural)]
pub enum Sign {
    Keep,
    Invert,
}

/// How strongly the charge lands.
#[derive(Debug, Clone, Copy, PartialEq, Eq, Hash, Structural)]
pub enum Magnitude {
    Weak,
    Normal,
    Strong,
}

/// The name of a sign.
pub open spec fn sign_name(s: Sign) -> Seq<char> {
    match s {
        Sign::Keep => "keep"@,
        Sign::Invert => "invert"@,
    }
}

/// The sign named exactly `t`, if any.
pub open spec fn sign_parse(t: Seq<char>) -> Option<Sign> {
    if t == "keep"@ {
        Some(Sign::Keep)
    } else if t == "invert"@ {
        Some(Sign::Invert)
    } else {
        None
    }
}

/// The name of a magnitude.
pub open spec fn magnitude_name(m: Magnitude) -> Seq<char> {
    match m {
        Magnitude::Weak => "weak"@,
        Magnitude::Normal => "normal"@,
        Magnitude::Strong => "strong"@,
    }
}

/// The magnitude named exactly `t`, if any.
pub open spec fn magnitude_parse(t: Seq<char>) -> Option<Magnitude> {
    if t == "weak"@ {
        Some(Magnitude::Weak)
    } else if t == "normal"@ {
        Some(Magnitude::Normal)
    } else if t == "strong"@ {
        Some(Magnitude::Strong)
    } else {
        None
    }
}

/// Reading a sign's name gives the sign back.
pub proof fn law_sign_name_round_trip(s: Sign)
    ensures
        sign_parse(sign_name(s)) == Some(s),
{
    reveal_strlit("keep");
    reveal_strlit("invert");
    assert("keep"@.len() != "invert"@.len());
}

/// Reading a magnitude's name gives the magnitude back.
pub proof fn law_magnitude_name_round_trip(m: Magnitude)
    ensures
        magnitude_parse(magnitude_name(m)) == Some(m),
{
    reveal_strlit("weak");
    reveal_strlit("normal");
    reveal_strlit("strong");
    assert("weak"@.len() != "normal"@.len());
    assert("weak"@.len() != "strong"@.len());
    assert("normal"@.len() == "strong"@.len());
    assert("normal"@[0] != "strong"@[0]);
}

impl Sign {
    /// The sign as a factor: 1.0 to keep, -1.0 to flip (float bits).
    pub fn as_f32(&self) -> (r: u32)
        ensures
            r == (if *self is Keep { 0x3F80_0000u32 } else { 0xBF80_0000u32 }),
    {
        match self {
            Sign::Keep => 0x3F80_0000u32,
            Sign::Invert => 0xBF80_0000u32,
        }
    }

    pub fn as_str(&self) -> (r: &'static str)
        ensures
            r@ == sign_name(*self),
    {
        match self {
            Sign::Keep => "keep",
            Sign::Invert => "invert",
        }
    }

    /// The sign named exactly `s`; any other text is an invalid sign.
    pub fn from_str(s: &str) -> (r: Result<Sign, ListenerPerspectiveError>)
        ensures
            match r {
                Ok(v) => sign_parse(s@) == Some(v),
                Err(e) => sign_parse(s@) is None && e@ == LpErrorView::InvalidSign(s@),
            },
    {
        if str_eq(s, "keep") {
            Ok(Sign::Keep)
        } else if str_eq(s, "invert") {
            Ok(Sign::Invert)
        } else {
            Err(ListenerPerspectiveError::InvalidSign(s.to_owned()))
        }
    }
}

impl Magnitude {
    pub fn as_str(&self) -> (r: &'static str)
        ensures
            r@ == magnitude_name(*self),
    {
        match self {
            Magnitude::Weak => "weak",
            Magnitude::Normal => "normal",
            Magnitude::Strong => "strong",
        }
    }

    /// The magnitude named exactly `s`; any other text is an invalid magnitude.
    pub fn from_str(s: &str) -> (r: Result<Magnitude, ListenerPerspectiveError>)
        ensures
            match r {
                Ok(v) => magnitude_parse(s@) == Some(v),
                Err(e) => magnitude_parse(s@) is None && e@ == LpErrorView::InvalidMagnitude(s@),
            },
    {
        if str_eq(s, "weak") {
            Ok(Magnitude::Weak)
        } else if str_eq(s, "normal") {
            Ok(Magnitude::Normal)
        } else if str_eq(s, "strong") {
            Ok(Magnitude::Strong)
        } else {
            Err(ListenerPerspectiveError::InvalidMagnitude(s.to_owned()))
        }
    }
}

impl std::str::FromStr for Sign {
    type Err = ListenerPerspectiveError;

    fn from_str(s: &str) -> (r: Result<Sign, ListenerPerspectiveError>)
        ensures
            match r {
                Ok(v) => sign_parse(s@) == Some(v),
                Err(e) => sign_parse(s@) is None && e@ == LpErrorView::InvalidSign(s@),
            },
    {
        Sign::from_str(s)
    }
}

impl std::str::FromStr for Magnitude {
    type Err = ListenerPerspectiveError;

    fn from_str(s: &str) -> (r: Result<Magnitude, ListenerPerspectiveError>)
        ensures
            match r {
                Ok(v) => magnitude_parse(s@) == Some(v),
                Err(e) => magnitude_parse(s@) is None && e@ == LpErrorView::InvalidMagnitude(s@),
            },
    {
        Magnitude::from_str(s)
    }
}

/// What the prefilter found in an utterance.
#[derive(Debug, Clone)]
pub struct PrefilterHit {
    pub sign: Sign,
    pub magnitude: Magnitude,
    /// The default speaker probability of the category, as a float bit pattern.
    pub p_s_default: u32,
    pub matched_category: String,
    /// The source text of the pattern that matched.
    pub matched_pattern: String,
}

/// Errors of the listener-perspective module.
#[derive(Debug, Clone)]
pub enum ListenerPerspectiveError {
    InvalidSign(String),
    InvalidMagnitude(String),
    PatternIo(String),
    PatternParse(String),
    PatternCompile { category: String, pattern: String, reason: String },
    PrototypeIo(String),
    PrototypeParse(String),
    PrototypeGroupMismatch { expected: String, actual: String },
    Embed(String),
    EmptyPrototypes(String),
}

/// An error with its texts as sequences.
pub enum LpErrorView {
    InvalidSign(Seq<char>),
    InvalidMagnitude(Seq<char>),
    PatternIo(Seq<char>),
    PatternParse(Seq<char>),
    PatternCompile { category: Seq<char>, pattern: Seq<char>, reason: Seq<char> },
    PrototypeIo(Seq<char>),
    PrototypeParse(Seq<char>),
    PrototypeGroupMismatch { expected: Seq<char>, actual: Seq<char> },
    Embed(Seq<char>),
    EmptyPrototypes(Seq<char>),
}

impl View for ListenerPerspectiveError {
    type V = LpErrorView;

    open spec fn view(&self) -> LpErrorView {
        match self {
            ListenerPerspectiveError::InvalidSign(s) => LpErrorView::InvalidSign(s@),
            ListenerPerspectiveError::InvalidMagnitude(s) => LpErrorView::InvalidMagnitude(s@),
            ListenerPerspectiveError::PatternIo(s) => LpErrorView::PatternIo(s@),
            ListenerPerspectiveError::PatternParse(s) => LpErrorView::PatternParse(s@),
            ListenerPerspectiveError::PatternCompile { category, pattern, reason } => LpErrorView::PatternCompile {
                category: category@,
                pattern: pattern@,
                reason: reason@,
            },
            ListenerPerspectiveError::PrototypeIo(s) => LpErrorView::PrototypeIo(s@),
            ListenerPerspectiveError::PrototypeParse(s) => LpErrorView::PrototypeParse(s@),
            ListenerPerspectiveError::PrototypeGroupMismatch { expected, actual } => LpErrorView::PrototypeGroupMismatch {
                expected: expected@,
                actual: actual@,
            },
            ListenerPerspectiveError::Embed(s) => LpErrorView::Embed(s@),
            ListenerPerspectiveError::EmptyPrototypes(s) => LpErrorView::EmptyPrototypes(s@),
        }
    }
}

/// The message of an error.
pub open spec fn lp_error_text(e: LpErrorView) -> Seq<char> {
    match e {
        LpErrorView::InvalidSign(s) => "알 수 없는 sign: '"@ + s + "' (허용: keep|invert)"@,
        LpErrorView::InvalidMagnitude(s) => "알 수 없는 magnitude: '"@ + s + "' (허용: weak|normal|strong)"@,
        LpErrorView::PatternIo(s) => "프리필터 패턴 파일 로드 실패: "@ + s,
        LpErrorView::PatternParse(s) => "프리필터 패턴 파싱 실패: "@ + s,
        LpErrorView::PatternCompile { category, pattern, reason } => "프리필터 정규식 컴파일 실패 (카테고리 '"@
            + category + "', 패턴 '"@ + pattern + "'): "@ + reason,
        LpErrorView::PrototypeIo(s) => "프로토타입 파일 로드 실패: "@ + s,
        LpErrorView::PrototypeParse(s) => "프로토타입 파싱 실패: "@ + s,
        LpErrorView::PrototypeGroupMismatch { expected, actual } => "프로토타입 메타 불일치 (기대 group='"@
            + expected + "', 실제='"@ + actual + "')"@,
        LpErrorView::Embed(s) => "임베딩 실패: "@ + s,
        LpErrorView::EmptyPrototypes(s) => "프로토타입 세트가 비어있음 (group="@ + s + ")"@,
    }
}

/// `a`, then `b`.
fn join2(a: &str, b: &str) -> (r: String)
    ensures
        r@ == a@ + b@,
{
    let mut s = String::from_str(a);
    s.append(b);
    s
}

/// `a`, `b`, then `c`.
fn join3(a: &str, b: &str, c: &str) -> (r: String)
    ensures
        r@ == a@ + b@ + c@,
{
    let mut s = String::from_str(a);
    s.append(b);
    s.append(c);
    s
}

impl ListenerPerspectiveError {
    /// The message of the error.
    pub fn to_string(&self) -> (r: String)
        ensures
            r@ == lp_error_text(self@),
    {
        match self {
            ListenerPerspectiveError::InvalidSign(s) => join3("알 수 없는 sign: '", s.as_str(), "' (허용: keep|invert)"),
            ListenerPerspectiveError::InvalidMagnitude(s) => join3(
                "알 수 없는 magnitude: '",
                s.as_str(),
                "' (허용: weak|normal|strong)",
            ),
            ListenerPerspectiveError::PatternIo(s) => join2("프리필터 패턴 파일 로드 실패: ", s.as_str()),
            ListenerPerspectiveError::PatternParse(s) => join2("프리필터 패턴 파싱 실패: ", s.as_str()),
            ListenerPerspectiveError::PatternCompile { category, pattern, reason } => {
                let mut t = join3("프리필터 정규식 컴파일 실패 (카테고리 '", category.as_str(), "', 패턴 '");
                t.append(pattern.as_str());
                t.append("'): ");
                t.append(reason.as_str());
                t
            },
            ListenerPerspectiveError::PrototypeIo(s) => join2("프로토타입 파일 로드 실패: ", s.as_str()),
            ListenerPerspectiveError::PrototypeParse(s) => join2("프로토타입 파싱 실패: ", s.as_str()),
            ListenerPerspectiveError::PrototypeGroupMismatch { expected, actual } => {
                let mut t = join3("프로토타입 메타 불일치 (기대 group='", expected.as_str(), "', 실제='");
                t.append(actual.as_str());
                t.append("')");
                t
            },
            ListenerPerspectiveError::Embed(s) => join2("임베딩 실패: ", s.as_str()),
            ListenerPerspectiveError::EmptyPrototypes(s) => join3("프로토타입 세트가 비어있음 (group=", s.as_str(), ")"),
        }
    }
}

} // verus!
