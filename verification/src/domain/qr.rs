use vstd::prelude::*;
use vstd::string::StringExecFns;
use crate::decimal::{decimal, decimal_text};
use crate::io::constants::{
    QR_CORRECTION_ERROR_LEVEL_HIGH, QR_CORRECTION_ERROR_LEVEL_LOW,
    QR_CORRECTION_ERROR_LEVEL_MEDIUM, QR_CORRECTION_ERROR_LEVEL_QUARTILE, QR_MODEL_1, QR_MODEL_2,
};

verus! {

/// The QR code model the printer draws.
#[derive(Clone, Copy, Debug, PartialEq, Eq)]
pub enum QrModel {
    Model1,
    Model2,
}

/// The parameter byte that selects a model.
pub open spec fn model_code(model: QrModel) -> u8 {
    match model {
        QrModel::Model1 => QR_MODEL_1,
        QrModel::Model2 => QR_MODEL_2,
    }
}

/// The lower-case name of a model.
pub open spec fn model_text(model: QrModel) -> Seq<char> {
    match model {
        QrModel::Model1 => "model1"@,
        QrModel::Model2 => "model2"@,
    }
}

impl From<&QrModel> for u8 {
    fn from(model: &QrModel) -> (code: u8) {
        match model {
            QrModel::Model1 => QR_MODEL_1,
            QrModel::Model2 => QR_MODEL_2,
        }
    }
}

impl vstd::std_specs::convert::FromSpecImpl<&QrModel> for u8 {
    open spec fn obeys_from_spec() -> bool {
        true
    }

    open spec fn from_spec(model: &QrModel) -> u8 {
        model_code(*model)
    }
}

impl QrModel {
    pub fn describe(&self) -> (text: String)
        ensures
            text@ == model_text(*self),
    {
        match self {
            QrModel::Model1 => String::from_str("model1"),
            QrModel::Model2 => String::from_str("model2"),
        }
    }
}

/// How much of a QR code may be damaged and still be read.
#[derive(Clone, Copy, Debug, PartialEq, Eq)]
pub enum QrCorrectionLevel {
    Low,
    Medium,
    Quartile,
    High,
}

/// The parameter byte that selects a correction level.
pub open spec fn level_code(level: QrCorrectionLevel) -> u8 {
    match level {
        QrCorrectionLevel::Low => QR_CORRECTION_ERROR_LEVEL_LOW,
        QrCorrectionLevel::Medium => QR_CORRECTION_ERROR_LEVEL_MEDIUM,
        QrCorrectionLevel::Quartile => QR_CORRECTION_ERROR_LEVEL_QUARTILE,
        QrCorrectionLevel::High => QR_CORRECTION_ERROR_LEVEL_HIGH,
    }
}

/// The letter a correction level is shown as. The device family shows
/// `Medium` as `l` and `Low` as `m`; the letters are kept as they are.
pub open spec fn level_text(level: QrCorrectionLevel) -> Seq<char> {
    match level {
        QrCorrectionLevel::Medium => "l"@,
        QrCorrectionLevel::Low => "m"@,
        QrCorrectionLevel::Quartile => "q"@,
        QrCorrectionLevel::High => "h"@,
    }
}

impl From<&QrCorrectionLevel> for u8 {
    fn from(correction_level: &QrCorrectionLevel) -> (code: u8) {
        match correction_level {
            QrCorrectionLevel::Low => QR_CORRECTION_ERROR_LEVEL_LOW,
            QrCorrectionLevel::Medium => QR_CORRECTION_ERROR_LEVEL_MEDIUM,
            QrCorrectionLevel::Quartile => QR_CORRECTION_ERROR_LEVEL_QUARTILE,
            QrCorrectionLevel::High => QR_CORRECTION_ERROR_LEVEL_HIGH,
        }
    }
}

impl vstd::std_specs::convert::FromSpecImpl<&QrCorrectionLevel> for u8 {
    open spec fn obeys_from_spec() -> bool {
        true
    }

    open spec fn from_spec(correction_level: &QrCorrectionLevel) -> u8 {
        level_code(*correction_level)
    }
}

impl QrCorrectionLevel {
    pub fn describe(&self) -> (text: String)
        ensures
            text@ == level_text(*self),
    {
        match self {
            QrCorrectionLevel::Medium => String::from_str("l"),
            QrCorrectionLevel::Low => String::from_str("m"),
            QrCorrectionLevel::Quartile => String::from_str("q"),
            QrCorrectionLevel::High => String::from_str("h"),
        }
    }
}

/// A QR code to print.
#[derive(Clone, Debug, PartialEq)]
pub struct Qr {
    model: QrModel,
    correction_level: QrCorrectionLevel,
    size: u8,
    text: String,
}

/// The mathematical value of a [`Qr`].
pub struct QrModelled {
    pub model: QrModel,
    pub correction_level: QrCorrectionLevel,
    pub size: u8,
    pub text: Seq<char>,
}

/// The QR code a builder starts from: model 1, medium correction, module
/// size 8, no text yet.
pub open spec fn default_qr() -> QrModelled {
    QrModelled {
        model: QrModel::Model1,
        correction_level: QrCorrectionLevel::Medium,
        size: 8,
        text: Seq::empty(),
    }
}

/// What `describe` renders for a QR code.
pub open spec fn qr_text(qr: QrModelled) -> Seq<char> {
    "model: "@ + model_text(qr.model) + ", correction_level: "@ + level_text(qr.correction_level)
        + ", size: "@ + decimal_text(qr.size as nat) + ", text: "@ + qr.text
}

impl View for Qr {
    type V = QrModelled;

    closed spec fn view(&self) -> QrModelled {
        QrModelled {
            model: self.model,
            correction_level: self.correction_level,
            size: self.size,
            text: self.text@,
        }
    }
}

impl Qr {
    pub fn new(model: QrModel, correction_level: QrCorrectionLevel, size: u8, text: String) -> (qr:
        Self)
        ensures
            qr@ == (QrModelled { model, correction_level, size, text: text@ }),
    {
        Self { model, correction_level, size, text }
    }

    pub fn model(&self) -> (model: &QrModel)
        ensures
            *model == self@.model,
    {
        &self.model
    }

    pub fn correction_level(&self) -> (level: &QrCorrectionLevel)
        ensures
            *level == self@.correction_level,
    {
        &self.correction_level
    }

    pub fn size(&self) -> (size: u8)
        ensures
            size == self@.size,
    {
        self.size
    }

    pub fn text(&self) -> (text: &str)
        ensures
            text@ == self@.text,
    {
        self.text.as_str()
    }

    pub fn builder() -> (builder: QrBuilder)
        ensures
            builder@ == default_qr(),
    {
        QrBuilder(Qr::default())
    }

    pub fn describe(&self) -> (text: String)
        ensures
            text@ == qr_text(self@),
    {
        let mut text = String::from_str("model: ");
        text.append(self.model.describe().as_str());
        text.append(", correction_level: ");
        text.append(self.correction_level.describe().as_str());
        text.append(", size: ");
        text.append(decimal(self.size).as_str());
        text.append(", text: ");
        text.append(self.text.as_str());
        text
    }
}

impl Default for Qr {
    fn default() -> (qr: Self)
        ensures
            qr@ == default_qr(),
    {
        Self::new(QrModel::Model1, QrCorrectionLevel::Medium, 8, String::new())
    }
}

/// Collects the fields of a [`Qr`], starting from the defaults.
#[derive(Clone, Debug)]
pub struct QrBuilder(Qr);

impl View for QrBuilder {
    type V = QrModelled;

    closed spec fn view(&self) -> QrModelled {
        self.0@
    }
}

impl Default for QrBuilder {
    fn default() -> (builder: Self)
        ensures
            builder@ == default_qr(),
    {
        QrBuilder(Qr::default())
    }
}

impl QrBuilder {
    pub fn model(self, model: QrModel) -> (builder: Self)
        ensures
            builder@ == (QrModelled { model, ..self@ }),
    {
        let mut builder = self;
        builder.0.model = model;
        builder
    }

    pub fn correction_level(self, correction_level: QrCorrectionLevel) -> (builder: Self)
        ensures
            builder@ == (QrModelled { correction_level, ..self@ }),
    {
        let mut builder = self;
        builder.0.correction_level = correction_level;
        builder
    }

    pub fn size(self, size: u8) -> (builder: Self)
        ensures
            builder@ == (QrModelled { size, ..self@ }),
    {
        let mut builder = self;
        builder.0.size = size;
        builder
    }

    pub fn text(self, text: &str) -> (builder: Self)
        ensures
            builder@ == (QrModelled { text: text@, ..self@ }),
    {
        let mut builder = self;
        builder.0.text = String::from_str(text);
        builder
    }

    pub fn build(self) -> (qr: Qr)
        ensures
            qr@ == self@,
    {
        self.0
    }
}

} // verus!
