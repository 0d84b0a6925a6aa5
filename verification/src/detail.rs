//! Pieces for showing a roll result in detail.
//!
//! Rendering itself is the host's business; this module only provides the
//! language-dependent spans of text a rendering needs. The host picks a
//! [`Language`], turns it into [`OutputSpans`] (or builds its own custom
//! spans), and passes them to its rendering at the point of use — there is
//! no process-wide language selection.

use vstd::prelude::*;

verus! {

/// Rolling result detailed output language.
#[derive(Debug, Clone, Copy, PartialEq, Eq, Hash, Structural)]
pub enum Language {
    /// English.
    EN,
    /// Simplified Chinese.
    ZhCN,
    /// A custom span set, built by the host; see [`OutputSpans`].
    Custom,
}

/// The numeric tag of each language.
pub open spec fn language_value(lang: Language) -> usize {
    match lang {
        Language::EN => 0usize,
        Language::ZhCN => 1usize,
        Language::Custom => 999usize,
    }
}

impl Language {
    /// The numeric tag of this language.
    pub fn value(&self) -> (r: usize)
        ensures
            r == language_value(*self),
    {
        match *self {
            Language::EN => 0,
            Language::ZhCN => 1,
            Language::Custom => 999,
        }
    }

    /// The language a numeric tag names. Only `0`, `1` and `999` are tags.
    pub fn from_value(value: usize) -> (r: Self)
        requires
            value == 0 || value == 1 || value == 999,
        ensures
            language_value(r) == value,
    {
        if value == 0 {
            Language::EN
        } else if value == 1 {
            Language::ZhCN
        } else {
            Language::Custom
        }
    }
}

/// The spans of text a detailed rendering of a roll needs; they differ
/// between languages.
#[derive(Debug, Clone, PartialEq, Eq, Hash)]
pub struct OutputSpans {
    /// Sentence separator.
    pub comma: String,
    /// Output before the target.
    pub target_is: String,
    /// Output word for success.
    pub success: String,
    /// Output word for failure.
    pub failed: String,
}

impl OutputSpans {
    /// The output spans of the predefined English language.
    pub fn new_en() -> (r: Self)
        ensures
            r.comma@ == ", "@,
            r.target_is@ == "target is"@,
            r.success@ == "success"@,
            r.failed@ == "failed"@,
    {
        Self {
            comma: ", ".to_owned(),
            target_is: "target is".to_owned(),
            success: "success".to_owned(),
            failed: "failed".to_owned(),
        }
    }

    /// The output spans of the predefined Simplified Chinese language.
    pub fn new_zh_cn() -> (r: Self)
        ensures
            r.comma@ == "，"@,
            r.target_is@ == "目标为"@,
            r.success@ == "通过"@,
            r.failed@ == "失败"@,
    {
        Self {
            comma: "，".to_owned(),
            target_is: "目标为".to_owned(),
            success: "通过".to_owned(),
            failed: "失败".to_owned(),
        }
    }

    /// The spans of a predefined language — exactly those of
    /// [`OutputSpans::new_en`] or [`OutputSpans::new_zh_cn`] — or `None`
    /// for [`Language::Custom`], whose spans only the host can build.
    pub fn predefined(lang: &Language) -> (r: Option<Self>)
        ensures
            match lang {
                Language::EN => r matches Some(sp) && sp.comma@ == ", "@ && sp.target_is@
                    == "target is"@ && sp.success@ == "success"@ && sp.failed@ == "failed"@,
                Language::ZhCN => r matches Some(sp) && sp.comma@ == "，"@ && sp.target_is@
                    == "目标为"@ && sp.success@ == "通过"@ && sp.failed@ == "失败"@,
                Language::Custom => r is None,
            },
    {
        match *lang {
            Language::EN => Some(Self::new_en()),
            Language::ZhCN => Some(Self::new_zh_cn()),
            Language::Custom => None,
        }
    }
}

} // verus!
