//! The error of the layer: a message and, optionally, its cause.

use vstd::prelude::*;

verus! {

/// What lies behind an error: the result code of a failed native call, or the
/// text of any other failure (a refused allocation, a nested error).
#[derive(Debug)]
pub enum HalaErrorSource {
    /// The raw `VkResult` code that the driver returned.
    Vulkan(i32),
    /// A cause that is known by its description only.
    Other(String),
}

/// The mathematical value of a [`HalaErrorSource`].
pub enum HalaErrorSourceView {
    Vulkan(i32),
    Other(Seq<char>),
}

impl View for HalaErrorSource {
    type V = HalaErrorSourceView;

    open spec fn view(&self) -> HalaErrorSourceView {
        match self {
            HalaErrorSource::Vulkan(code) => HalaErrorSourceView::Vulkan(*code),
            HalaErrorSource::Other(text) => HalaErrorSourceView::Other(text@),
        }
    }
}

/// The error type of the crate: a message and, optionally, its cause.
#[derive(Debug)]
pub struct HalaGfxError {
    msg: String,
    source: Option<HalaErrorSource>,
}

/// The mathematical value of a [`HalaGfxError`].
pub struct HalaGfxErrorView {
    pub msg: Seq<char>,
    pub source: Option<HalaErrorSourceView>,
}

/// The code by which the driver reports that the logical device is lost.
pub open spec fn spec_device_lost_code() -> int {
    -4
}

/// The code by which the presentation engine reports that the surface no
/// longer matches the swapchain.
pub open spec fn spec_out_of_date_code() -> int {
    -1_000_001_004
}

/// Whether a cause is one of the two conditions that the resize and recreate
/// path answers.
pub open spec fn spec_is_device_lost(source: Option<HalaErrorSourceView>) -> bool {
    match source {
        Some(HalaErrorSourceView::Vulkan(code)) => code == spec_device_lost_code() || code
            == spec_out_of_date_code(),
        _ => false,
    }
}

/// Reads `ash::vk::Result::ERROR_DEVICE_LOST` through `as_raw`. The crate
/// defines that constant as the code -4.
#[verifier::external_body]
fn vk_error_device_lost() -> (code: i32)
    ensures
        code == spec_device_lost_code(),
{
    ash::vk::Result::ERROR_DEVICE_LOST.as_raw()
}

/// Reads `ash::vk::Result::ERROR_OUT_OF_DATE_KHR` through `as_raw`. The crate
/// defines that constant as the code -1000001004.
#[verifier::external_body]
fn vk_error_out_of_date() -> (code: i32)
    ensures
        code == spec_out_of_date_code(),
{
    ash::vk::Result::ERROR_OUT_OF_DATE_KHR.as_raw()
}

impl View for HalaGfxError {
    type V = HalaGfxErrorView;

    closed spec fn view(&self) -> HalaGfxErrorView {
        HalaGfxErrorView {
            msg: self.msg@,
            source: match self.source {
                Some(s) => Some(s@),
                None => None,
            },
        }
    }
}

impl HalaGfxError {
    /// The value of an error with the given message and cause.
    pub open spec fn spec_new(msg: Seq<char>, source: Option<HalaErrorSourceView>) -> HalaGfxErrorView {
        HalaGfxErrorView { msg, source }
    }

    /// The value of an error that a failed native call caused.
    pub open spec fn spec_vulkan(msg: Seq<char>, code: i32) -> HalaGfxErrorView {
        HalaGfxErrorView { msg, source: Some(HalaErrorSourceView::Vulkan(code)) }
    }

    /// The value of an error without a cause.
    pub open spec fn spec_plain(msg: Seq<char>) -> HalaGfxErrorView {
        HalaGfxErrorView { msg, source: None }
    }

    /// An error with a message and an optional cause.
    pub fn new(msg: &str, source: Option<HalaErrorSource>) -> (e: Self)
        ensures
            e@.msg == msg@,
            e@.source == match source {
                Some(s) => Some(s@),
                None => None,
            },
    {
        Self { msg: msg.to_owned(), source }
    }

    /// An error caused by the result code of a failed native call.
    pub fn vulkan(msg: &str, code: i32) -> (e: Self)
        ensures
            e@ == Self::spec_vulkan(msg@, code),
    {
        Self { msg: msg.to_owned(), source: Some(HalaErrorSource::Vulkan(code)) }
    }

    /// The message of the error.
    pub fn message(&self) -> (m: &str)
        ensures
            m@ == self@.msg,
    {
        self.msg.as_str()
    }

    /// The cause of the error, if it has one.
    pub fn source(&self) -> (s: &Option<HalaErrorSource>)
        ensures
            self@.source == match *s {
                Some(c) => Some(c@),
                None => None,
            },
    {
        &self.source
    }

    /// The raw result code of the native call that caused the error, if a
    /// native call did.
    pub fn vulkan_code(&self) -> (code: Option<i32>)
        ensures
            code == match self@.source {
                Some(HalaErrorSourceView::Vulkan(c)) => Some(c),
                _ => None,
            },
    {
        match &self.source {
            Some(HalaErrorSource::Vulkan(c)) => Some(*c),
            _ => None,
        }
    }

    /// The predicate that tells the one recoverable condition from every
    /// other error: the cause is a native result that reports a lost device
    /// or an out-of-date surface.
    pub fn is_device_lost(&self) -> (lost: bool)
        ensures
            lost == spec_is_device_lost(self@.source),
    {
        match &self.source {
            Some(HalaErrorSource::Vulkan(code)) => {
                let code: i32 = *code;
                code == vk_error_device_lost() || code == vk_error_out_of_date()
            },
            _ => false,
        }
    }

    /// The text that the error shows to a user: its message.
    pub fn to_string(&self) -> (s: String)
        ensures
            s@ == self@.msg,
    {
        self.msg.clone()
    }
}

} // verus!
