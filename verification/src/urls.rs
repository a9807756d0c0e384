//! The addresses that the service talks to unless it is told otherwise.

use vstd::prelude::*;

verus! {

/// Where tokens are obtained.
pub const API_AUTH_TTS_URL: &'static str = "https://iam.api.cloud.yandex.net/iam/v1/tokens";

/// Where speech is synthesised.
pub const API_TTS_URL: &'static str = "https://tts.api.cloud.yandex.net/speech/v1/tts:synthesize";

/// Where speech is recognised.
pub const API_STT_URL: &'static str = "https://stt.api.cloud.yandex.net:443";

/// Where the bus listens.
pub const NATS_URL: &'static str = "nats://localhost:4222";

} // verus!
