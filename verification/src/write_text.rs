//! DirectWrite text: the text format builder and the errors of the DirectWrite wrappers.
use vstd::prelude::*;
use crate::canvas::S_OK;

verus! {

pub const DWRITE_FONT_WEIGHT_NORMAL: u32 = 400;
pub const DWRITE_FONT_STRETCH_NORMAL: u32 = 5;
pub const DWRITE_FONT_STYLE_NORMAL: u32 = 0;
pub const DWRITE_FONT_STYLE_OBLIQUE: u32 = 1;
pub const DWRITE_FONT_STYLE_ITALIC: u32 = 2;

/// Errors that can be returned by the DirectWrite wrappers
#[derive(Copy, Clone, Debug)]
pub enum WriteError {
    /// A parameter that is required was not given; holds its name
    MissingParameter(&'static str),
    /// The system refused; holds its code
    Unknown(i32),
}

/// The style of a font face
#[derive(Copy, Clone, Debug, PartialEq, Eq, Structural)]
pub enum FontStyle {
    Normal,
    Oblique,
    Italic,
}

impl FontStyle {
    /// The DirectWrite code of the style
    pub fn code(&self) -> (r: u32)
        ensures
            r == (match *self {
                FontStyle::Normal => DWRITE_FONT_STYLE_NORMAL,
                FontStyle::Oblique => DWRITE_FONT_STYLE_OBLIQUE,
                FontStyle::Italic => DWRITE_FONT_STYLE_ITALIC,
            }),
    {
        match self {
            FontStyle::Normal => DWRITE_FONT_STYLE_NORMAL,
            FontStyle::Oblique => DWRITE_FONT_STYLE_OBLIQUE,
            FontStyle::Italic => DWRITE_FONT_STYLE_ITALIC,
        }
    }
}

/// The DirectWrite factory, root of the other DirectWrite objects
pub struct WriteFactory {
    pub handle: usize,
}

impl WriteFactory {
    /// The factory, from the code and the object of its creation: the code must be
    /// success
    pub fn new(result: i32, handle: usize) -> (r: Result<WriteFactory, WriteError>)
        ensures
            result == S_OK ==> (r matches Ok(f) && f.handle == handle),
            result != S_OK ==> r == Err::<WriteFactory, WriteError>(WriteError::Unknown(result)),
    {
        if result == S_OK { Ok(WriteFactory { handle }) } else { Err(WriteError::Unknown(result)) }
    }

    /// Whether the factory is bound to a DirectWrite object
    pub fn is_null(&self) -> (r: bool)
        ensures
            r == (self.handle == 0),
    {
        self.handle == 0
    }
}

/// The font and paragraph properties used to format text
pub struct WriteTextFormat {
    pub handle: usize,
}

impl WriteTextFormat {
    /// The builder of a text format: normal weight, style and stretch, and the `en-us`
    /// locale; the family must be given (the size, a floating point value, is passed on
    /// as it is by the caller, 20 by default)
    pub fn builder<'a>(fact: &'a WriteFactory) -> (b: WriteTextFormatBuilder<'a>)
        ensures
            b.fact == fact,
            b.family is None,
            b.locale matches Some(l) && l@ == "en-us"@,
            b.font_weight == DWRITE_FONT_WEIGHT_NORMAL,
            b.font_style == DWRITE_FONT_STYLE_NORMAL,
            b.font_stretch == DWRITE_FONT_STRETCH_NORMAL,
    {
        WriteTextFormatBuilder {
            fact,
            family: None,
            font_weight: DWRITE_FONT_WEIGHT_NORMAL,
            font_style: DWRITE_FONT_STYLE_NORMAL,
            font_stretch: DWRITE_FONT_STRETCH_NORMAL,
            locale: Some("en-us"),
        }
    }

    /// Whether the text format is bound to a DirectWrite object
    pub fn is_null(&self) -> (r: bool)
        ensures
            r == (self.handle == 0),
    {
        self.handle == 0
    }
}

/// A builder for a WriteTextFormat object
pub struct WriteTextFormatBuilder<'a> {
    pub fact: &'a WriteFactory,
    pub family: Option<&'a str>,
    pub locale: Option<&'a str>,
    pub font_weight: u32,
    pub font_style: u32,
    pub font_stretch: u32,
}

/// What creating a text format sends: its family, its locale, its weight, style and
/// stretch
#[derive(Debug)]
pub struct TextFormatRequest {
    pub family: String,
    pub locale: String,
    pub font_weight: u32,
    pub font_style: u32,
    pub font_stretch: u32,
}

impl<'a> WriteTextFormatBuilder<'a> {
    /// The name of the font family. Ex: "Arial"
    pub fn family(self, fam: &'a str) -> (b: WriteTextFormatBuilder<'a>)
        ensures
            b == (WriteTextFormatBuilder { family: Some(fam), ..self }),
    {
        WriteTextFormatBuilder { family: Some(fam), ..self }
    }

    /// The locale name. Ex: "en-us"
    pub fn locale(self, loc: Option<&'a str>) -> (b: WriteTextFormatBuilder<'a>)
        ensures
            b == (WriteTextFormatBuilder { locale: loc, ..self }),
    {
        WriteTextFormatBuilder { locale: loc, ..self }
    }

    /// Weight of the font. A value between 100 and 950
    pub fn font_weight(self, w: u32) -> (b: WriteTextFormatBuilder<'a>)
        ensures
            b == (WriteTextFormatBuilder { font_weight: w, ..self }),
    {
        WriteTextFormatBuilder { font_weight: w, ..self }
    }

    /// The style of the font face
    pub fn font_style(self, s: u32) -> (b: WriteTextFormatBuilder<'a>)
        ensures
            b == (WriteTextFormatBuilder { font_style: s, ..self }),
    {
        WriteTextFormatBuilder { font_style: s, ..self }
    }

    /// The font stretch. A value between 1 and 9
    pub fn font_stretch(self, s: u32) -> (b: WriteTextFormatBuilder<'a>)
        ensures
            b == (WriteTextFormatBuilder { font_stretch: s, ..self }),
    {
        WriteTextFormatBuilder { font_stretch: s, ..self }
    }

    /// What creating the text format sends: fails when the family or the locale is
    /// missing (the family is checked first)
    pub fn build(&self) -> (r: Result<TextFormatRequest, WriteError>)
        ensures
            self.family is None ==> (r matches Err(WriteError::MissingParameter(p)) && p@ == "family"@),
            self.family is Some && self.locale is None ==> (r matches Err(WriteError::MissingParameter(p)) && p@ == "locale"@),
            r is Ok <==> (self.family is Some && self.locale is Some),
            r matches Ok(q) ==> {
                &&& q.family@ == self.family.unwrap()@
                &&& q.locale@ == self.locale.unwrap()@
                &&& q.font_weight == self.font_weight
                &&& q.font_style == self.font_style
                &&& q.font_stretch == self.font_stretch
            },
    {
        let family = match self.family {
            Some(f) => f.to_owned(),
            None => { return Err(WriteError::MissingParameter("family")); },
        };
        let locale = match self.locale {
            Some(l) => l.to_owned(),
            None => { return Err(WriteError::MissingParameter("locale")); },
        };
        Ok(TextFormatRequest {
            family,
            locale,
            font_weight: self.font_weight,
            font_style: self.font_style,
            font_stretch: self.font_stretch,
        })
    }

    /// The text format, from the code and the object of its creation: the code must be
    /// success
    pub fn finish(result: i32, handle: usize) -> (r: Result<WriteTextFormat, WriteError>)
        ensures
            result == S_OK ==> (r matches Ok(f) && f.handle == handle),
            result != S_OK ==> r == Err::<WriteTextFormat, WriteError>(WriteError::Unknown(result)),
    {
        if result == S_OK { Ok(WriteTextFormat { handle }) } else { Err(WriteError::Unknown(result)) }
    }
}

} // verus!
