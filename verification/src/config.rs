//! The settings document: its shape, its defaults, and the model file it names.

use vstd::prelude::*;
use vstd::string::*;

verus! {

/// Which speech model is used and where it runs.
#[derive(Debug, PartialEq, Eq)]
pub struct ModelConfig {
    /// `"local"` or `"api"`.
    pub model_type: String,
    /// `tiny`, `base`, `small`, `medium`, `large`, or a model URL.
    pub local_model: String,
    pub use_quantized: bool,
}

/// The remote transcription service, for when the model does not run locally.
#[derive(Debug, PartialEq, Eq)]
pub struct ApiConfig {
    pub provider: String,
    pub api_key: String,
    pub model: String,
}

/// How the overlay window looks and behaves.
#[derive(Debug, PartialEq, Eq)]
pub struct UiConfig {
    pub theme: String,
    /// The window opacity as the bit pattern of an IEEE 754 single-precision
    /// number; the library carries it and never computes with it.
    pub opacity_bits: u32,
    pub position: String,
    /// Milliseconds.
    pub auto_hide_delay: u64,
}

/// The whole settings document.
#[derive(Debug, PartialEq, Eq)]
pub struct Config {
    pub shortcut: String,
    pub language: String,
    pub auto_paste: bool,
    pub model: ModelConfig,
    pub api: ApiConfig,
    pub ui: UiConfig,
}

pub ghost struct ModelConfigView {
    pub model_type: Seq<char>,
    pub local_model: Seq<char>,
    pub use_quantized: bool,
}

pub ghost struct ApiConfigView {
    pub provider: Seq<char>,
    pub api_key: Seq<char>,
    pub model: Seq<char>,
}

pub ghost struct UiConfigView {
    pub theme: Seq<char>,
    pub opacity_bits: u32,
    pub position: Seq<char>,
    pub auto_hide_delay: u64,
}

pub ghost struct ConfigView {
    pub shortcut: Seq<char>,
    pub language: Seq<char>,
    pub auto_paste: bool,
    pub model: ModelConfigView,
    pub api: ApiConfigView,
    pub ui: UiConfigView,
}

impl View for ModelConfig {
    type V = ModelConfigView;

    open spec fn view(&self) -> ModelConfigView {
        ModelConfigView {
            model_type: self.model_type@,
            local_model: self.local_model@,
            use_quantized: self.use_quantized,
        }
    }
}

impl View for ApiConfig {
    type V = ApiConfigView;

    open spec fn view(&self) -> ApiConfigView {
        ApiConfigView { provider: self.provider@, api_key: self.api_key@, model: self.model@ }
    }
}

impl View for UiConfig {
    type V = UiConfigView;

    open spec fn view(&self) -> UiConfigView {
        UiConfigView {
            theme: self.theme@,
            opacity_bits: self.opacity_bits,
            position: self.position@,
            auto_hide_delay: self.auto_hide_delay,
        }
    }
}

impl View for Config {
    type V = ConfigView;

    open spec fn view(&self) -> ConfigView {
        ConfigView {
            shortcut: self.shortcut@,
            language: self.language@,
            auto_paste: self.auto_paste,
            model: self.model@,
            api: self.api@,
            ui: self.ui@,
        }
    }
}

impl Clone for ModelConfig {
    fn clone(&self) -> (copy: Self)
        ensures
            copy@ == self@,
    {
        ModelConfig {
            model_type: self.model_type.clone(),
            local_model: self.local_model.clone(),
            use_quantized: self.use_quantized,
        }
    }
}

impl Clone for ApiConfig {
    fn clone(&self) -> (copy: Self)
        ensures
            copy@ == self@,
    {
        ApiConfig {
            provider: self.provider.clone(),
            api_key: self.api_key.clone(),
            model: self.model.clone(),
        }
    }
}

impl Clone for UiConfig {
    fn clone(&self) -> (copy: Self)
        ensures
            copy@ == self@,
    {
        UiConfig {
            theme: self.theme.clone(),
            opacity_bits: self.opacity_bits,
            position: self.position.clone(),
            auto_hide_delay: self.auto_hide_delay,
        }
    }
}

impl Clone for Config {
    fn clone(&self) -> (copy: Self)
        ensures
            copy@ == self@,
    {
        Config {
            shortcut: self.shortcut.clone(),
            language: self.language.clone(),
            auto_paste: self.auto_paste,
            model: self.model.clone(),
            api: self.api.clone(),
            ui: self.ui.clone(),
        }
    }
}

/// The bit pattern of the single-precision number nearest to 0.9.
pub const DEFAULT_OPACITY_BITS: u32 = 0x3F66_6666;

/// The settings a fresh installation starts with.
pub open spec fn default_config() -> ConfigView {
    ConfigView {
        shortcut: "Super+Shift+T"@,
        language: "pt"@,
        auto_paste: true,
        model: ModelConfigView {
            model_type: "local"@,
            local_model: "base"@,
            use_quantized: true,
        },
        api: ApiConfigView { provider: "openai"@, api_key: Seq::empty(), model: "whisper-1"@ },
        ui: UiConfigView {
            theme: "glass"@,
            opacity_bits: DEFAULT_OPACITY_BITS,
            position: "cursor"@,
            auto_hide_delay: 3000,
        },
    }
}

impl Default for Config {
    fn default() -> (config: Self)
        ensures
            config@ == default_config(),
    {
        Config {
            shortcut: String::from_str("Super+Shift+T"),
            language: String::from_str("pt"),
            auto_paste: true,
            model: ModelConfig {
                model_type: String::from_str("local"),
                local_model: String::from_str("base"),
                use_quantized: true,
            },
            api: ApiConfig {
                provider: String::from_str("openai"),
                api_key: String::new(),
                model: String::from_str("whisper-1"),
            },
            ui: UiConfig {
                theme: String::from_str("glass"),
                opacity_bits: DEFAULT_OPACITY_BITS,
                position: String::from_str("cursor"),
                auto_hide_delay: 3000,
            },
        }
    }
}

/// The name of the file that holds the model called `model`.
pub open spec fn model_file_name_of(model: Seq<char>) -> Seq<char> {
    "ggml-"@ + model + ".bin"@
}

impl Config {
    /// The name, inside the models directory, of the file that holds the
    /// configured local model.
    pub fn model_file_name(&self) -> (name: String)
        ensures
            name@ == model_file_name_of(self@.model.local_model),
    {
        let mut name = String::from_str("ggml-");
        name.append(self.model.local_model.as_str());
        name.append(".bin");
        name
    }
}

} // verus!
