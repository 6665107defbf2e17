//! The catalogue of speech-to-text models: identifiers, descriptions,
//! sizes, filenames and download locations, plus path management for
//! downloaded model files.

use vstd::prelude::*;
use vstd::string::StringExecFns;

use crate::config::TranscriptionConfig;
use crate::error::WhisperError;
use crate::math::{spec_max_span_nanos, ByteSpeed, TimeSpan};

verus! {

/// Available speech-to-text model types.
#[derive(Debug, Clone, Copy, PartialEq, Eq, Structural)]
pub enum WhisperModel {
    /// Tiny model (39 MB, fastest, lowest accuracy).
    Tiny,
    /// Tiny English-only model (39 MB, fastest for English).
    TinyEn,
    /// Tiny quantized Q5_1 (31 MB, fastest).
    TinyQ5_1,
    /// Tiny English-only quantized Q5_1 (31 MB).
    TinyEnQ5_1,
    /// Tiny quantized Q8_0 (42 MB).
    TinyQ8_0,
    /// Base model (142 MB, good balance of speed and accuracy).
    Base,
    /// Base English-only model (142 MB, good for English).
    BaseEn,
    /// Base quantized Q5_1 (103 MB).
    BaseQ5_1,
    /// Base English-only quantized Q5_1 (103 MB).
    BaseEnQ5_1,
    /// Base quantized Q8_0 (149 MB).
    BaseQ8_0,
    /// Small model (466 MB, good accuracy).
    Small,
    /// Small English-only model (466 MB).
    SmallEn,
    /// Small English-only TinyDiarize model (speaker diarization).
    SmallEnTdrz,
    /// Small quantized Q5_1 (340 MB).
    SmallQ5_1,
    /// Small English-only quantized Q5_1 (340 MB).
    SmallEnQ5_1,
    /// Small quantized Q8_0 (488 MB).
    SmallQ8_0,
    /// Medium model (1.5 GB, high accuracy).
    Medium,
    /// Medium English-only model (1.5 GB).
    MediumEn,
    /// Medium quantized Q5_0 (1.1 GB).
    MediumQ5_0,
    /// Medium English-only quantized Q5_0 (1.1 GB).
    MediumEnQ5_0,
    /// Medium quantized Q8_0 (1.6 GB).
    MediumQ8_0,
    /// Large v1 model (3.0 GB, highest accuracy).
    LargeV1,
    /// Large v2 model (3.0 GB, improved accuracy).
    LargeV2,
    /// Large v2 quantized Q5_0 (2.3 GB).
    LargeV2Q5_0,
    /// Large v2 quantized Q8_0 (3.2 GB).
    LargeV2Q8_0,
    /// Large v3 model (3.0 GB, most accurate).
    LargeV3,
    /// Large v3 quantized Q5_0 (2.3 GB).
    LargeV3Q5_0,
    /// Large v3 Turbo model (1.5 GB, faster large model).
    LargeV3Turbo,
    /// Large v3 Turbo quantized Q5_0 (1.2 GB).
    LargeV3TurboQ5_0,
    /// Large v3 Turbo quantized Q8_0 (1.6 GB).
    LargeV3TurboQ8_0,
}

/// The identifier of a model, used in filenames and URLs.
pub open spec fn spec_model_name(m: WhisperModel) -> Seq<char> {
    match m {
        WhisperModel::Tiny => "tiny"@,
        WhisperModel::TinyEn => "tiny.en"@,
        WhisperModel::TinyQ5_1 => "tiny-q5_1"@,
        WhisperModel::TinyEnQ5_1 => "tiny.en-q5_1"@,
        WhisperModel::TinyQ8_0 => "tiny-q8_0"@,
        WhisperModel::Base => "base"@,
        WhisperModel::BaseEn => "base.en"@,
        WhisperModel::BaseQ5_1 => "base-q5_1"@,
        WhisperModel::BaseEnQ5_1 => "base.en-q5_1"@,
        WhisperModel::BaseQ8_0 => "base-q8_0"@,
        WhisperModel::Small => "small"@,
        WhisperModel::SmallEn => "small.en"@,
        WhisperModel::SmallEnTdrz => "small.en-tdrz"@,
        WhisperModel::SmallQ5_1 => "small-q5_1"@,
        WhisperModel::SmallEnQ5_1 => "small.en-q5_1"@,
        WhisperModel::SmallQ8_0 => "small-q8_0"@,
        WhisperModel::Medium => "medium"@,
        WhisperModel::MediumEn => "medium.en"@,
        WhisperModel::MediumQ5_0 => "medium-q5_0"@,
        WhisperModel::MediumEnQ5_0 => "medium.en-q5_0"@,
        WhisperModel::MediumQ8_0 => "medium-q8_0"@,
        WhisperModel::LargeV1 => "large-v1"@,
        WhisperModel::LargeV2 => "large-v2"@,
        WhisperModel::LargeV2Q5_0 => "large-v2-q5_0"@,
        WhisperModel::LargeV2Q8_0 => "large-v2-q8_0"@,
        WhisperModel::LargeV3 => "large-v3"@,
        WhisperModel::LargeV3Q5_0 => "large-v3-q5_0"@,
        WhisperModel::LargeV3Turbo => "large-v3-turbo"@,
        WhisperModel::LargeV3TurboQ5_0 => "large-v3-turbo-q5_0"@,
        WhisperModel::LargeV3TurboQ8_0 => "large-v3-turbo-q8_0"@,
    }
}

/// The human-readable description of a model.
pub open spec fn spec_model_description(m: WhisperModel) -> Seq<char> {
    match m {
        WhisperModel::Tiny => "Tiny model (39 MB, fastest, lowest accuracy)"@,
        WhisperModel::TinyEn => "Tiny English-only model (39 MB, fastest for English)"@,
        WhisperModel::TinyQ5_1 => "Tiny quantized Q5_1 (31 MB, fastest)"@,
        WhisperModel::TinyEnQ5_1 => "Tiny English-only quantized Q5_1 (31 MB)"@,
        WhisperModel::TinyQ8_0 => "Tiny quantized Q8_0 (42 MB)"@,
        WhisperModel::Base => "Base model (142 MB, good balance of speed and accuracy)"@,
        WhisperModel::BaseEn => "Base English-only model (142 MB, good for English)"@,
        WhisperModel::BaseQ5_1 => "Base quantized Q5_1 (103 MB)"@,
        WhisperModel::BaseEnQ5_1 => "Base English-only quantized Q5_1 (103 MB)"@,
        WhisperModel::BaseQ8_0 => "Base quantized Q8_0 (149 MB)"@,
        WhisperModel::Small => "Small model (466 MB, good accuracy)"@,
        WhisperModel::SmallEn => "Small English-only model (466 MB)"@,
        WhisperModel::SmallEnTdrz => "Small English-only TinyDiarize model (speaker diarization)"@,
        WhisperModel::SmallQ5_1 => "Small quantized Q5_1 (340 MB)"@,
        WhisperModel::SmallEnQ5_1 => "Small English-only quantized Q5_1 (340 MB)"@,
        WhisperModel::SmallQ8_0 => "Small quantized Q8_0 (488 MB)"@,
        WhisperModel::Medium => "Medium model (1.5 GB, high accuracy)"@,
        WhisperModel::MediumEn => "Medium English-only model (1.5 GB)"@,
        WhisperModel::MediumQ5_0 => "Medium quantized Q5_0 (1.1 GB)"@,
        WhisperModel::MediumEnQ5_0 => "Medium English-only quantized Q5_0 (1.1 GB)"@,
        WhisperModel::MediumQ8_0 => "Medium quantized Q8_0 (1.6 GB)"@,
        WhisperModel::LargeV1 => "Large v1 model (3.0 GB, highest accuracy)"@,
        WhisperModel::LargeV2 => "Large v2 model (3.0 GB, improved accuracy)"@,
        WhisperModel::LargeV2Q5_0 => "Large v2 quantized Q5_0 (2.3 GB)"@,
        WhisperModel::LargeV2Q8_0 => "Large v2 quantized Q8_0 (3.2 GB)"@,
        WhisperModel::LargeV3 => "Large v3 model (3.0 GB, most accurate)"@,
        WhisperModel::LargeV3Q5_0 => "Large v3 quantized Q5_0 (2.3 GB)"@,
        WhisperModel::LargeV3Turbo => "Large v3 Turbo model (1.5 GB, faster large model)"@,
        WhisperModel::LargeV3TurboQ5_0 => "Large v3 Turbo quantized Q5_0 (1.2 GB)"@,
        WhisperModel::LargeV3TurboQ8_0 => "Large v3 Turbo quantized Q8_0 (1.6 GB)"@,
    }
}

/// The approximate size of a model file in bytes.
pub open spec fn spec_model_size(m: WhisperModel) -> int {
    match m {
        WhisperModel::Tiny => (39 * 1024 * 1024) as int,
        WhisperModel::TinyEn => (39 * 1024 * 1024) as int,
        WhisperModel::TinyQ5_1 => (31 * 1024 * 1024) as int,
        WhisperModel::TinyEnQ5_1 => (31 * 1024 * 1024) as int,
        WhisperModel::TinyQ8_0 => (42 * 1024 * 1024) as int,
        WhisperModel::Base => (142 * 1024 * 1024) as int,
        WhisperModel::BaseEn => (142 * 1024 * 1024) as int,
        WhisperModel::BaseQ5_1 => (103 * 1024 * 1024) as int,
        WhisperModel::BaseEnQ5_1 => (103 * 1024 * 1024) as int,
        WhisperModel::BaseQ8_0 => (149 * 1024 * 1024) as int,
        WhisperModel::Small => (466 * 1024 * 1024) as int,
        WhisperModel::SmallEn => (466 * 1024 * 1024) as int,
        WhisperModel::SmallEnTdrz => (466 * 1024 * 1024) as int,
        WhisperModel::SmallQ5_1 => (340 * 1024 * 1024) as int,
        WhisperModel::SmallEnQ5_1 => (340 * 1024 * 1024) as int,
        WhisperModel::SmallQ8_0 => (488 * 1024 * 1024) as int,
        WhisperModel::Medium => (1500 * 1024 * 1024) as int,
        WhisperModel::MediumEn => (1500 * 1024 * 1024) as int,
        WhisperModel::MediumQ5_0 => (1100 * 1024 * 1024) as int,
        WhisperModel::MediumEnQ5_0 => (1100 * 1024 * 1024) as int,
        WhisperModel::MediumQ8_0 => (1600 * 1024 * 1024) as int,
        WhisperModel::LargeV1 => (3000 * 1024 * 1024) as int,
        WhisperModel::LargeV2 => (3000 * 1024 * 1024) as int,
        WhisperModel::LargeV2Q5_0 => (2300 * 1024 * 1024) as int,
        WhisperModel::LargeV2Q8_0 => (3200 * 1024 * 1024) as int,
        WhisperModel::LargeV3 => (3000 * 1024 * 1024) as int,
        WhisperModel::LargeV3Q5_0 => (2300 * 1024 * 1024) as int,
        WhisperModel::LargeV3Turbo => (1500 * 1024 * 1024) as int,
        WhisperModel::LargeV3TurboQ5_0 => (1200 * 1024 * 1024) as int,
        WhisperModel::LargeV3TurboQ8_0 => (1600 * 1024 * 1024) as int,
    }
}

/// The filename a model is stored under.
pub open spec fn spec_model_filename(m: WhisperModel) -> Seq<char> {
    "ggml-"@ + spec_model_name(m) + ".bin"@
}

/// Where a model can be downloaded from.
pub open spec fn spec_model_url(m: WhisperModel) -> Seq<char> {
    (if m is SmallEnTdrz {
        "https://huggingface.co/akashmjn/tinydiarize-whisper.cpp/resolve/main"@
    } else {
        "https://huggingface.co/ggerganov/whisper.cpp/resolve/main"@
    }) + "/"@ + spec_model_filename(m)
}

/// Every model of the catalogue, in its canonical order.
pub open spec fn spec_all_models() -> Seq<WhisperModel> {
    seq![
        WhisperModel::Tiny,
        WhisperModel::TinyEn,
        WhisperModel::TinyQ5_1,
        WhisperModel::TinyEnQ5_1,
        WhisperModel::TinyQ8_0,
        WhisperModel::Base,
        WhisperModel::BaseEn,
        WhisperModel::BaseQ5_1,
        WhisperModel::BaseEnQ5_1,
        WhisperModel::BaseQ8_0,
        WhisperModel::Small,
        WhisperModel::SmallEn,
        WhisperModel::SmallEnTdrz,
        WhisperModel::SmallQ5_1,
        WhisperModel::SmallEnQ5_1,
        WhisperModel::SmallQ8_0,
        WhisperModel::Medium,
        WhisperModel::MediumEn,
        WhisperModel::MediumQ5_0,
        WhisperModel::MediumEnQ5_0,
        WhisperModel::MediumQ8_0,
        WhisperModel::LargeV1,
        WhisperModel::LargeV2,
        WhisperModel::LargeV2Q5_0,
        WhisperModel::LargeV2Q8_0,
        WhisperModel::LargeV3,
        WhisperModel::LargeV3Q5_0,
        WhisperModel::LargeV3Turbo,
        WhisperModel::LargeV3TurboQ5_0,
        WhisperModel::LargeV3TurboQ8_0,
    ]
}

/// Which model an identifier names, if any.
pub open spec fn spec_parse_model(s: Seq<char>) -> Option<WhisperModel> {
    if s == spec_model_name(WhisperModel::Tiny) {
        Some(WhisperModel::Tiny)
    } else if s == spec_model_name(WhisperModel::TinyEn) {
        Some(WhisperModel::TinyEn)
    } else if s == spec_model_name(WhisperModel::TinyQ5_1) {
        Some(WhisperModel::TinyQ5_1)
    } else if s == spec_model_name(WhisperModel::TinyEnQ5_1) {
        Some(WhisperModel::TinyEnQ5_1)
    } else if s == spec_model_name(WhisperModel::TinyQ8_0) {
        Some(WhisperModel::TinyQ8_0)
    } else if s == spec_model_name(WhisperModel::Base) {
        Some(WhisperModel::Base)
    } else if s == spec_model_name(WhisperModel::BaseEn) {
        Some(WhisperModel::BaseEn)
    } else if s == spec_model_name(WhisperModel::BaseQ5_1) {
        Some(WhisperModel::BaseQ5_1)
    } else if s == spec_model_name(WhisperModel::BaseEnQ5_1) {
        Some(WhisperModel::BaseEnQ5_1)
    } else if s == spec_model_name(WhisperModel::BaseQ8_0) {
        Some(WhisperModel::BaseQ8_0)
    } else if s == spec_model_name(WhisperModel::Small) {
        Some(WhisperModel::Small)
    } else if s == spec_model_name(WhisperModel::SmallEn) {
        Some(WhisperModel::SmallEn)
    } else if s == spec_model_name(WhisperModel::SmallEnTdrz) {
        Some(WhisperModel::SmallEnTdrz)
    } else if s == spec_model_name(WhisperModel::SmallQ5_1) {
        Some(WhisperModel::SmallQ5_1)
    } else if s == spec_model_name(WhisperModel::SmallEnQ5_1) {
        Some(WhisperModel::SmallEnQ5_1)
    } else if s == spec_model_name(WhisperModel::SmallQ8_0) {
        Some(WhisperModel::SmallQ8_0)
    } else if s == spec_model_name(WhisperModel::Medium) {
        Some(WhisperModel::Medium)
    } else if s == spec_model_name(WhisperModel::MediumEn) {
        Some(WhisperModel::MediumEn)
    } else if s == spec_model_name(WhisperModel::MediumQ5_0) {
        Some(WhisperModel::MediumQ5_0)
    } else if s == spec_model_name(WhisperModel::MediumEnQ5_0) {
        Some(WhisperModel::MediumEnQ5_0)
    } else if s == spec_model_name(WhisperModel::MediumQ8_0) {
        Some(WhisperModel::MediumQ8_0)
    } else if s == spec_model_name(WhisperModel::LargeV1) {
        Some(WhisperModel::LargeV1)
    } else if s == spec_model_name(WhisperModel::LargeV2) {
        Some(WhisperModel::LargeV2)
    } else if s == spec_model_name(WhisperModel::LargeV2Q5_0) {
        Some(WhisperModel::LargeV2Q5_0)
    } else if s == spec_model_name(WhisperModel::LargeV2Q8_0) {
        Some(WhisperModel::LargeV2Q8_0)
    } else if s == spec_model_name(WhisperModel::LargeV3) {
        Some(WhisperModel::LargeV3)
    } else if s == spec_model_name(WhisperModel::LargeV3Q5_0) {
        Some(WhisperModel::LargeV3Q5_0)
    } else if s == spec_model_name(WhisperModel::LargeV3Turbo) {
        Some(WhisperModel::LargeV3Turbo)
    } else if s == spec_model_name(WhisperModel::LargeV3TurboQ5_0) {
        Some(WhisperModel::LargeV3TurboQ5_0)
    } else if s == spec_model_name(WhisperModel::LargeV3TurboQ8_0) {
        Some(WhisperModel::LargeV3TurboQ8_0)
    } else {
        None
    }
}

/// Parsing inverts naming: every catalogue model's identifier parses
/// back to exactly that model.
#[verifier::rlimit(60)]
pub proof fn lemma_model_name_roundtrip(m: WhisperModel)
    ensures
        spec_parse_model(spec_model_name(m)) == Some(m),
{
    reveal_strlit("tiny");
    reveal_strlit("tiny.en");
    reveal_strlit("tiny-q5_1");
    reveal_strlit("tiny.en-q5_1");
    reveal_strlit("tiny-q8_0");
    reveal_strlit("base");
    reveal_strlit("base.en");
    reveal_strlit("base-q5_1");
    reveal_strlit("base.en-q5_1");
    reveal_strlit("base-q8_0");
    reveal_strlit("small");
    reveal_strlit("small.en");
    reveal_strlit("small.en-tdrz");
    reveal_strlit("small-q5_1");
    reveal_strlit("small.en-q5_1");
    reveal_strlit("small-q8_0");
    reveal_strlit("medium");
    reveal_strlit("medium.en");
    reveal_strlit("medium-q5_0");
    reveal_strlit("medium.en-q5_0");
    reveal_strlit("medium-q8_0");
    reveal_strlit("large-v1");
    reveal_strlit("large-v2");
    reveal_strlit("large-v2-q5_0");
    reveal_strlit("large-v2-q8_0");
    reveal_strlit("large-v3");
    reveal_strlit("large-v3-q5_0");
    reveal_strlit("large-v3-turbo");
    reveal_strlit("large-v3-turbo-q5_0");
    reveal_strlit("large-v3-turbo-q8_0");
    assert("tiny"@.len() == 4);
    assert("tiny.en"@.len() == 7);
    assert("tiny-q5_1"@.len() == 9);
    assert("tiny.en-q5_1"@.len() == 12);
    assert("tiny-q8_0"@.len() == 9);
    assert("base"@.len() == 4);
    assert("base.en"@.len() == 7);
    assert("base-q5_1"@.len() == 9);
    assert("base.en-q5_1"@.len() == 12);
    assert("base-q8_0"@.len() == 9);
    assert("small"@.len() == 5);
    assert("small.en"@.len() == 8);
    assert("small.en-tdrz"@.len() == 13);
    assert("small-q5_1"@.len() == 10);
    assert("small.en-q5_1"@.len() == 13);
    assert("small-q8_0"@.len() == 10);
    assert("medium"@.len() == 6);
    assert("medium.en"@.len() == 9);
    assert("medium-q5_0"@.len() == 11);
    assert("medium.en-q5_0"@.len() == 14);
    assert("medium-q8_0"@.len() == 11);
    assert("large-v1"@.len() == 8);
    assert("large-v2"@.len() == 8);
    assert("large-v2-q5_0"@.len() == 13);
    assert("large-v2-q8_0"@.len() == 13);
    assert("large-v3"@.len() == 8);
    assert("large-v3-q5_0"@.len() == 13);
    assert("large-v3-turbo"@.len() == 14);
    assert("large-v3-turbo-q5_0"@.len() == 19);
    assert("large-v3-turbo-q8_0"@.len() == 19);
    assert("tiny"@ != "base"@) by {
        assert("tiny"@[0] == 't');
        assert("base"@[0] == 'b');
    }
    assert("tiny.en"@ != "base.en"@) by {
        assert("tiny.en"@[0] == 't');
        assert("base.en"@[0] == 'b');
    }
    assert("tiny-q5_1"@ != "tiny-q8_0"@) by {
        assert("tiny-q5_1"@[6] == '5');
        assert("tiny-q8_0"@[6] == '8');
    }
    assert("tiny-q5_1"@ != "base-q5_1"@) by {
        assert("tiny-q5_1"@[0] == 't');
        assert("base-q5_1"@[0] == 'b');
    }
    assert("tiny-q5_1"@ != "base-q8_0"@) by {
        assert("tiny-q5_1"@[0] == 't');
        assert("base-q8_0"@[0] == 'b');
    }
    assert("tiny-q5_1"@ != "medium.en"@) by {
        assert("tiny-q5_1"@[0] == 't');
        assert("medium.en"@[0] == 'm');
    }
    assert("tiny.en-q5_1"@ != "base.en-q5_1"@) by {
        assert("tiny.en-q5_1"@[0] == 't');
        assert("base.en-q5_1"@[0] == 'b');
    }
    assert("tiny-q8_0"@ != "base-q5_1"@) by {
        assert("tiny-q8_0"@[0] == 't');
        assert("base-q5_1"@[0] == 'b');
    }
    assert("tiny-q8_0"@ != "base-q8_0"@) by {
        assert("tiny-q8_0"@[0] == 't');
        assert("base-q8_0"@[0] == 'b');
    }
    assert("tiny-q8_0"@ != "medium.en"@) by {
        assert("tiny-q8_0"@[0] == 't');
        assert("medium.en"@[0] == 'm');
    }
    assert("base-q5_1"@ != "base-q8_0"@) by {
        assert("base-q5_1"@[6] == '5');
        assert("base-q8_0"@[6] == '8');
    }
    assert("base-q5_1"@ != "medium.en"@) by {
        assert("base-q5_1"@[0] == 'b');
        assert("medium.en"@[0] == 'm');
    }
    assert("base-q8_0"@ != "medium.en"@) by {
        assert("base-q8_0"@[0] == 'b');
        assert("medium.en"@[0] == 'm');
    }
    assert("small.en"@ != "large-v1"@) by {
        assert("small.en"@[0] == 's');
        assert("large-v1"@[0] == 'l');
    }
    assert("small.en"@ != "large-v2"@) by {
        assert("small.en"@[0] == 's');
        assert("large-v2"@[0] == 'l');
    }
    assert("small.en"@ != "large-v3"@) by {
        assert("small.en"@[0] == 's');
        assert("large-v3"@[0] == 'l');
    }
    assert("small.en-tdrz"@ != "small.en-q5_1"@) by {
        assert("small.en-tdrz"@[9] == 't');
        assert("small.en-q5_1"@[9] == 'q');
    }
    assert("small.en-tdrz"@ != "large-v2-q5_0"@) by {
        assert("small.en-tdrz"@[0] == 's');
        assert("large-v2-q5_0"@[0] == 'l');
    }
    assert("small.en-tdrz"@ != "large-v2-q8_0"@) by {
        assert("small.en-tdrz"@[0] == 's');
        assert("large-v2-q8_0"@[0] == 'l');
    }
    assert("small.en-tdrz"@ != "large-v3-q5_0"@) by {
        assert("small.en-tdrz"@[0] == 's');
        assert("large-v3-q5_0"@[0] == 'l');
    }
    assert("small-q5_1"@ != "small-q8_0"@) by {
        assert("small-q5_1"@[7] == '5');
        assert("small-q8_0"@[7] == '8');
    }
    assert("small.en-q5_1"@ != "large-v2-q5_0"@) by {
        assert("small.en-q5_1"@[0] == 's');
        assert("large-v2-q5_0"@[0] == 'l');
    }
    assert("small.en-q5_1"@ != "large-v2-q8_0"@) by {
        assert("small.en-q5_1"@[0] == 's');
        assert("large-v2-q8_0"@[0] == 'l');
    }
    assert("small.en-q5_1"@ != "large-v3-q5_0"@) by {
        assert("small.en-q5_1"@[0] == 's');
        assert("large-v3-q5_0"@[0] == 'l');
    }
    assert("medium-q5_0"@ != "medium-q8_0"@) by {
        assert("medium-q5_0"@[8] == '5');
        assert("medium-q8_0"@[8] == '8');
    }
    assert("medium.en-q5_0"@ != "large-v3-turbo"@) by {
        assert("medium.en-q5_0"@[0] == 'm');
        assert("large-v3-turbo"@[0] == 'l');
    }
    assert("large-v1"@ != "large-v2"@) by {
        assert("large-v1"@[7] == '1');
        assert("large-v2"@[7] == '2');
    }
    assert("large-v1"@ != "large-v3"@) by {
        assert("large-v1"@[7] == '1');
        assert("large-v3"@[7] == '3');
    }
    assert("large-v2"@ != "large-v3"@) by {
        assert("large-v2"@[7] == '2');
        assert("large-v3"@[7] == '3');
    }
    assert("large-v2-q5_0"@ != "large-v2-q8_0"@) by {
        assert("large-v2-q5_0"@[10] == '5');
        assert("large-v2-q8_0"@[10] == '8');
    }
    assert("large-v2-q5_0"@ != "large-v3-q5_0"@) by {
        assert("large-v2-q5_0"@[7] == '2');
        assert("large-v3-q5_0"@[7] == '3');
    }
    assert("large-v2-q8_0"@ != "large-v3-q5_0"@) by {
        assert("large-v2-q8_0"@[7] == '2');
        assert("large-v3-q5_0"@[7] == '3');
    }
    assert("large-v3-turbo-q5_0"@ != "large-v3-turbo-q8_0"@) by {
        assert("large-v3-turbo-q5_0"@[16] == '5');
        assert("large-v3-turbo-q8_0"@[16] == '8');
    }
}

/// Whether two strings hold the same characters.
fn str_eq(a: &str, b: &str) -> (r: bool)
    ensures
        r == (a@ == b@),
{
    let sa = a.to_owned();
    let sb = b.to_owned();
    sa.eq(&sb)
}

impl WhisperModel {
    /// Get the model identifier string used in filenames and URLs.
    pub fn as_str(&self) -> (r: &'static str)
        ensures
            r@ == spec_model_name(*self),
    {
        match self {
            WhisperModel::Tiny => "tiny",
            WhisperModel::TinyEn => "tiny.en",
            WhisperModel::TinyQ5_1 => "tiny-q5_1",
            WhisperModel::TinyEnQ5_1 => "tiny.en-q5_1",
            WhisperModel::TinyQ8_0 => "tiny-q8_0",
            WhisperModel::Base => "base",
            WhisperModel::BaseEn => "base.en",
            WhisperModel::BaseQ5_1 => "base-q5_1",
            WhisperModel::BaseEnQ5_1 => "base.en-q5_1",
            WhisperModel::BaseQ8_0 => "base-q8_0",
            WhisperModel::Small => "small",
            WhisperModel::SmallEn => "small.en",
            WhisperModel::SmallEnTdrz => "small.en-tdrz",
            WhisperModel::SmallQ5_1 => "small-q5_1",
            WhisperModel::SmallEnQ5_1 => "small.en-q5_1",
            WhisperModel::SmallQ8_0 => "small-q8_0",
            WhisperModel::Medium => "medium",
            WhisperModel::MediumEn => "medium.en",
            WhisperModel::MediumQ5_0 => "medium-q5_0",
            WhisperModel::MediumEnQ5_0 => "medium.en-q5_0",
            WhisperModel::MediumQ8_0 => "medium-q8_0",
            WhisperModel::LargeV1 => "large-v1",
            WhisperModel::LargeV2 => "large-v2",
            WhisperModel::LargeV2Q5_0 => "large-v2-q5_0",
            WhisperModel::LargeV2Q8_0 => "large-v2-q8_0",
            WhisperModel::LargeV3 => "large-v3",
            WhisperModel::LargeV3Q5_0 => "large-v3-q5_0",
            WhisperModel::LargeV3Turbo => "large-v3-turbo",
            WhisperModel::LargeV3TurboQ5_0 => "large-v3-turbo-q5_0",
            WhisperModel::LargeV3TurboQ8_0 => "large-v3-turbo-q8_0",
        }
    }

    /// Get the model description.
    pub fn description(&self) -> (r: &'static str)
        ensures
            r@ == spec_model_description(*self),
    {
        match self {
            WhisperModel::Tiny => "Tiny model (39 MB, fastest, lowest accuracy)",
            WhisperModel::TinyEn => "Tiny English-only model (39 MB, fastest for English)",
            WhisperModel::TinyQ5_1 => "Tiny quantized Q5_1 (31 MB, fastest)",
            WhisperModel::TinyEnQ5_1 => "Tiny English-only quantized Q5_1 (31 MB)",
            WhisperModel::TinyQ8_0 => "Tiny quantized Q8_0 (42 MB)",
            WhisperModel::Base => "Base model (142 MB, good balance of speed and accuracy)",
            WhisperModel::BaseEn => "Base English-only model (142 MB, good for English)",
            WhisperModel::BaseQ5_1 => "Base quantized Q5_1 (103 MB)",
            WhisperModel::BaseEnQ5_1 => "Base English-only quantized Q5_1 (103 MB)",
            WhisperModel::BaseQ8_0 => "Base quantized Q8_0 (149 MB)",
            WhisperModel::Small => "Small model (466 MB, good accuracy)",
            WhisperModel::SmallEn => "Small English-only model (466 MB)",
            WhisperModel::SmallEnTdrz => "Small English-only TinyDiarize model (speaker diarization)",
            WhisperModel::SmallQ5_1 => "Small quantized Q5_1 (340 MB)",
            WhisperModel::SmallEnQ5_1 => "Small English-only quantized Q5_1 (340 MB)",
            WhisperModel::SmallQ8_0 => "Small quantized Q8_0 (488 MB)",
            WhisperModel::Medium => "Medium model (1.5 GB, high accuracy)",
            WhisperModel::MediumEn => "Medium English-only model (1.5 GB)",
            WhisperModel::MediumQ5_0 => "Medium quantized Q5_0 (1.1 GB)",
            WhisperModel::MediumEnQ5_0 => "Medium English-only quantized Q5_0 (1.1 GB)",
            WhisperModel::MediumQ8_0 => "Medium quantized Q8_0 (1.6 GB)",
            WhisperModel::LargeV1 => "Large v1 model (3.0 GB, highest accuracy)",
            WhisperModel::LargeV2 => "Large v2 model (3.0 GB, improved accuracy)",
            WhisperModel::LargeV2Q5_0 => "Large v2 quantized Q5_0 (2.3 GB)",
            WhisperModel::LargeV2Q8_0 => "Large v2 quantized Q8_0 (3.2 GB)",
            WhisperModel::LargeV3 => "Large v3 model (3.0 GB, most accurate)",
            WhisperModel::LargeV3Q5_0 => "Large v3 quantized Q5_0 (2.3 GB)",
            WhisperModel::LargeV3Turbo => "Large v3 Turbo model (1.5 GB, faster large model)",
            WhisperModel::LargeV3TurboQ5_0 => "Large v3 Turbo quantized Q5_0 (1.2 GB)",
            WhisperModel::LargeV3TurboQ8_0 => "Large v3 Turbo quantized Q8_0 (1.6 GB)",
        }
    }

    /// Approximate size of the model file in bytes.
    pub fn size(&self) -> (r: u64)
        ensures
            r as int == spec_model_size(*self),
    {
        match self {
            WhisperModel::Tiny => 39 * 1024 * 1024,
            WhisperModel::TinyEn => 39 * 1024 * 1024,
            WhisperModel::TinyQ5_1 => 31 * 1024 * 1024,
            WhisperModel::TinyEnQ5_1 => 31 * 1024 * 1024,
            WhisperModel::TinyQ8_0 => 42 * 1024 * 1024,
            WhisperModel::Base => 142 * 1024 * 1024,
            WhisperModel::BaseEn => 142 * 1024 * 1024,
            WhisperModel::BaseQ5_1 => 103 * 1024 * 1024,
            WhisperModel::BaseEnQ5_1 => 103 * 1024 * 1024,
            WhisperModel::BaseQ8_0 => 149 * 1024 * 1024,
            WhisperModel::Small => 466 * 1024 * 1024,
            WhisperModel::SmallEn => 466 * 1024 * 1024,
            WhisperModel::SmallEnTdrz => 466 * 1024 * 1024,
            WhisperModel::SmallQ5_1 => 340 * 1024 * 1024,
            WhisperModel::SmallEnQ5_1 => 340 * 1024 * 1024,
            WhisperModel::SmallQ8_0 => 488 * 1024 * 1024,
            WhisperModel::Medium => 1500 * 1024 * 1024,
            WhisperModel::MediumEn => 1500 * 1024 * 1024,
            WhisperModel::MediumQ5_0 => 1100 * 1024 * 1024,
            WhisperModel::MediumEnQ5_0 => 1100 * 1024 * 1024,
            WhisperModel::MediumQ8_0 => 1600 * 1024 * 1024,
            WhisperModel::LargeV1 => 3000 * 1024 * 1024,
            WhisperModel::LargeV2 => 3000 * 1024 * 1024,
            WhisperModel::LargeV2Q5_0 => 2300 * 1024 * 1024,
            WhisperModel::LargeV2Q8_0 => 3200 * 1024 * 1024,
            WhisperModel::LargeV3 => 3000 * 1024 * 1024,
            WhisperModel::LargeV3Q5_0 => 2300 * 1024 * 1024,
            WhisperModel::LargeV3Turbo => 1500 * 1024 * 1024,
            WhisperModel::LargeV3TurboQ5_0 => 1200 * 1024 * 1024,
            WhisperModel::LargeV3TurboQ8_0 => 1600 * 1024 * 1024,
        }
    }

    /// Get all available models, in catalogue order.
    pub fn all_models() -> (r: Vec<WhisperModel>)
        ensures
            r@ == spec_all_models(),
    {
        let mut r: Vec<WhisperModel> = Vec::new();
        r.push(WhisperModel::Tiny);
        r.push(WhisperModel::TinyEn);
        r.push(WhisperModel::TinyQ5_1);
        r.push(WhisperModel::TinyEnQ5_1);
        r.push(WhisperModel::TinyQ8_0);
        r.push(WhisperModel::Base);
        r.push(WhisperModel::BaseEn);
        r.push(WhisperModel::BaseQ5_1);
        r.push(WhisperModel::BaseEnQ5_1);
        r.push(WhisperModel::BaseQ8_0);
        r.push(WhisperModel::Small);
        r.push(WhisperModel::SmallEn);
        r.push(WhisperModel::SmallEnTdrz);
        r.push(WhisperModel::SmallQ5_1);
        r.push(WhisperModel::SmallEnQ5_1);
        r.push(WhisperModel::SmallQ8_0);
        r.push(WhisperModel::Medium);
        r.push(WhisperModel::MediumEn);
        r.push(WhisperModel::MediumQ5_0);
        r.push(WhisperModel::MediumEnQ5_0);
        r.push(WhisperModel::MediumQ8_0);
        r.push(WhisperModel::LargeV1);
        r.push(WhisperModel::LargeV2);
        r.push(WhisperModel::LargeV2Q5_0);
        r.push(WhisperModel::LargeV2Q8_0);
        r.push(WhisperModel::LargeV3);
        r.push(WhisperModel::LargeV3Q5_0);
        r.push(WhisperModel::LargeV3Turbo);
        r.push(WhisperModel::LargeV3TurboQ5_0);
        r.push(WhisperModel::LargeV3TurboQ8_0);
        proof {
            assert(r@ =~= spec_all_models());
        }
        r
    }

    /// Get the filename for this model.
    pub fn filename(&self) -> (r: String)
        ensures
            r@ == spec_model_filename(*self),
    {
        String::from_str("ggml-").concat(self.as_str()).concat(".bin")
    }

    /// Get the download URL for this model. The diarization model lives
    /// in its own repository; every other model in the main one.
    pub fn url(&self) -> (r: String)
        ensures
            r@ == spec_model_url(*self),
    {
        let base: &'static str = match self {
            WhisperModel::SmallEnTdrz => {
                "https://huggingface.co/akashmjn/tinydiarize-whisper.cpp/resolve/main"
            },
            _ => "https://huggingface.co/ggerganov/whisper.cpp/resolve/main",
        };
        String::from_str(base).concat("/").concat(self.filename().as_str())
    }

    /// How long downloading this model takes at the given speed: the
    /// size divided by the speed, saturating at the longest span. A
    /// zero speed yields the longest span rather than a division by
    /// zero.
    pub fn estimated_download_time(&self, speed: ByteSpeed) -> (r: TimeSpan)
        requires
            speed.divisor.0.wf(),
        ensures
            r.wf(),
            speed.dividend.0 == 0 || speed.divisor.0.spec_nanos() == 0 ==> r.spec_nanos()
                == spec_max_span_nanos(),
            speed.dividend.0 > 0 && speed.divisor.0.spec_nanos() > 0 ==> r.spec_nanos() == (
            if spec_model_size(*self) * speed.divisor.0.spec_nanos() / speed.dividend.0 as int
                <= spec_max_span_nanos() {
                spec_model_size(*self) * speed.divisor.0.spec_nanos() / speed.dividend.0 as int
            } else {
                spec_max_span_nanos()
            }),
    {
        if speed.dividend.0 == 0 || speed.divisor.0.is_zero() {
            return TimeSpan { secs: u64::MAX, nanos: 999_999_999 };
        }
        let divisor_nanos: u128 = (speed.divisor.0.secs as u128) * 1_000_000_000 + (
        speed.divisor.0.nanos as u128);
        let size = self.size();
        proof {
            assert(spec_model_size(*self) <= 3_355_443_200);
            vstd::arithmetic::mul::lemma_mul_upper_bound(
                size as int,
                3_355_443_200,
                divisor_nanos as int,
                18_446_744_073_709_551_616_000_000_000,
            );
        }
        let total: u128 = (size as u128) * divisor_nanos / (speed.dividend.0 as u128);
        if total > (u64::MAX as u128) * 1_000_000_000 + 999_999_999 {
            TimeSpan { secs: u64::MAX, nanos: 999_999_999 }
        } else {
            TimeSpan { secs: (total / 1_000_000_000) as u64, nanos: (total % 1_000_000_000) as u32 }
        }
    }
}

/// Parse a model identifier; an unknown identifier is a configuration
/// error.
pub fn parse_model(s: &str) -> (r: Result<WhisperModel, WhisperError>)
    ensures
        match spec_parse_model(s@) {
            Option::Some(m) => r == Result::<WhisperModel, WhisperError>::Ok(m),
            Option::None => r is Err && r->Err_0 is Configuration,
        },
{
    if str_eq(s, "tiny") {
        Ok(WhisperModel::Tiny)
    } else if str_eq(s, "tiny.en") {
        Ok(WhisperModel::TinyEn)
    } else if str_eq(s, "tiny-q5_1") {
        Ok(WhisperModel::TinyQ5_1)
    } else if str_eq(s, "tiny.en-q5_1") {
        Ok(WhisperModel::TinyEnQ5_1)
    } else if str_eq(s, "tiny-q8_0") {
        Ok(WhisperModel::TinyQ8_0)
    } else if str_eq(s, "base") {
        Ok(WhisperModel::Base)
    } else if str_eq(s, "base.en") {
        Ok(WhisperModel::BaseEn)
    } else if str_eq(s, "base-q5_1") {
        Ok(WhisperModel::BaseQ5_1)
    } else if str_eq(s, "base.en-q5_1") {
        Ok(WhisperModel::BaseEnQ5_1)
    } else if str_eq(s, "base-q8_0") {
        Ok(WhisperModel::BaseQ8_0)
    } else if str_eq(s, "small") {
        Ok(WhisperModel::Small)
    } else if str_eq(s, "small.en") {
        Ok(WhisperModel::SmallEn)
    } else if str_eq(s, "small.en-tdrz") {
        Ok(WhisperModel::SmallEnTdrz)
    } else if str_eq(s, "small-q5_1") {
        Ok(WhisperModel::SmallQ5_1)
    } else if str_eq(s, "small.en-q5_1") {
        Ok(WhisperModel::SmallEnQ5_1)
    } else if str_eq(s, "small-q8_0") {
        Ok(WhisperModel::SmallQ8_0)
    } else if str_eq(s, "medium") {
        Ok(WhisperModel::Medium)
    } else if str_eq(s, "medium.en") {
        Ok(WhisperModel::MediumEn)
    } else if str_eq(s, "medium-q5_0") {
        Ok(WhisperModel::MediumQ5_0)
    } else if str_eq(s, "medium.en-q5_0") {
        Ok(WhisperModel::MediumEnQ5_0)
    } else if str_eq(s, "medium-q8_0") {
        Ok(WhisperModel::MediumQ8_0)
    } else if str_eq(s, "large-v1") {
        Ok(WhisperModel::LargeV1)
    } else if str_eq(s, "large-v2") {
        Ok(WhisperModel::LargeV2)
    } else if str_eq(s, "large-v2-q5_0") {
        Ok(WhisperModel::LargeV2Q5_0)
    } else if str_eq(s, "large-v2-q8_0") {
        Ok(WhisperModel::LargeV2Q8_0)
    } else if str_eq(s, "large-v3") {
        Ok(WhisperModel::LargeV3)
    } else if str_eq(s, "large-v3-q5_0") {
        Ok(WhisperModel::LargeV3Q5_0)
    } else if str_eq(s, "large-v3-turbo") {
        Ok(WhisperModel::LargeV3Turbo)
    } else if str_eq(s, "large-v3-turbo-q5_0") {
        Ok(WhisperModel::LargeV3TurboQ5_0)
    } else if str_eq(s, "large-v3-turbo-q8_0") {
        Ok(WhisperModel::LargeV3TurboQ8_0)
    } else {
        Err(
            WhisperError::Configuration(
                String::from_str("Unknown Whisper model: ").concat(s),
            ),
        )
    }
}

impl core::str::FromStr for WhisperModel {
    type Err = WhisperError;

    fn from_str(s: &str) -> Result<Self, WhisperError> {
        parse_model(s)
    }
}

/// Model manager: resolves where model files live on disk. The directory
/// itself is chosen by the embedding application.
#[derive(Debug, Clone)]
pub struct ModelManager {
    models_dir: String,
}

impl ModelManager {
    /// The directory that holds the model files.
    pub closed spec fn spec_models_dir(&self) -> Seq<char> {
        self.models_dir@
    }

    /// The path a model is stored under: the models directory, a
    /// separator, and the model's filename.
    pub open spec fn spec_model_path(&self, model: WhisperModel) -> Seq<char> {
        self.spec_models_dir() + "/"@ + spec_model_filename(model)
    }

    /// A manager over the given models directory.
    pub fn from_dir(models_dir: String) -> (r: ModelManager)
        ensures
            r.spec_models_dir() == models_dir@,
    {
        ModelManager { models_dir }
    }

    /// Get the models directory path.
    pub fn models_dir(&self) -> (r: &String)
        ensures
            r@ == self.spec_models_dir(),
    {
        &self.models_dir
    }

    /// Get the full path to a model file.
    pub fn get_model_path(&self, model: WhisperModel) -> (r: String)
        ensures
            r@ == self.spec_model_path(model),
    {
        self.models_dir.clone().concat("/").concat(model.filename().as_str())
    }

    /// Assign a model path to a transcription configuration.
    pub fn assign_model_path(&self, config: &mut TranscriptionConfig, model: WhisperModel)
        ensures
            final(config).model_path matches Some(p) && p@ == self.spec_model_path(model),
            final(config).language == old(config).language,
            final(config).use_gpu == old(config).use_gpu,
            final(config).num_threads == old(config).num_threads,
            final(config).sample_rate == old(config).sample_rate,
            final(config).max_duration_ms == old(config).max_duration_ms,
            final(config).temperature_milli == old(config).temperature_milli,
            final(config).beam_size == old(config).beam_size,
            final(config).output_format == old(config).output_format,
            final(config).verbose == old(config).verbose,
    {
        config.model_path = Some(self.get_model_path(model));
    }

    /// The models to try first when picking a model automatically, in
    /// order of preference.
    pub fn recommended_models() -> (r: Vec<WhisperModel>)
        ensures
            r@ == seq![
                WhisperModel::Base,
                WhisperModel::BaseEn,
                WhisperModel::Small,
                WhisperModel::SmallEn,
                WhisperModel::Tiny,
                WhisperModel::TinyEn,
            ],
    {
        let mut r: Vec<WhisperModel> = Vec::new();
        r.push(WhisperModel::Base);
        r.push(WhisperModel::BaseEn);
        r.push(WhisperModel::Small);
        r.push(WhisperModel::SmallEn);
        r.push(WhisperModel::Tiny);
        r.push(WhisperModel::TinyEn);
        proof {
            assert(r@ =~= seq![
                WhisperModel::Base,
                WhisperModel::BaseEn,
                WhisperModel::Small,
                WhisperModel::SmallEn,
                WhisperModel::Tiny,
                WhisperModel::TinyEn,
            ]);
        }
        r
    }
}

} // verus!
