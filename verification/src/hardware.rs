//! Whether a speech model fits the machine: the memory that each model
//! needs, what the machine offers, and the verdict.

use vstd::prelude::*;
use vstd::string::*;
use sysinfo::{Cpu, System};
use crate::error::SetupError;
use crate::text::{
    contains, decimal, decimal_of, ends_with, has_part, has_suffix, lowercase, lowercase_of,
    same_text, text_of,
};

verus! {

/// What the machine offers.
#[derive(Debug, Clone, PartialEq, Eq)]
pub struct SystemInfo {
    pub total_memory_gb: u64,
    pub available_memory_gb: u64,
    pub cpu_cores: usize,
    pub cpu_name: String,
    pub has_gpu: bool,
    pub gpu_vram_gb: Option<u64>,
}

/// The verdict on one of the standard models.
#[derive(Debug, Clone, PartialEq, Eq)]
pub struct ModelCompatibility {
    pub model: String,
    pub can_run: bool,
    pub ram_required_gb: u64,
    pub vram_required_gb: Option<u64>,
    pub estimated_speed: String,
}

/// The verdict on a model from the model hub.
#[derive(Debug, Clone, PartialEq, Eq)]
pub struct HuggingFaceCompatibility {
    pub model_id: String,
    pub can_run: bool,
    pub estimated_size_mb: u64,
    pub ram_required_gb: u64,
    pub vram_required_gb: Option<u64>,
    pub model_type: String,
    pub performance_rating: String,
    pub recommendation: String,
}

/// One file of a model on the hub.
#[derive(Debug, Clone, PartialEq, Eq)]
pub struct ModelFileInfo {
    pub rfilename: String,
    /// The size in bytes, where the hub tells it.
    pub size: Option<u64>,
}

/// What the hub says of a model.
#[derive(Debug, Clone, PartialEq, Eq)]
pub struct HuggingFaceModelInfo {
    pub model_id: String,
    pub model_type: String,
    pub siblings: Option<Vec<ModelFileInfo>>,
}

pub ghost struct SystemInfoView {
    pub total_memory_gb: u64,
    pub available_memory_gb: u64,
    pub cpu_cores: usize,
    pub cpu_name: Seq<char>,
    pub has_gpu: bool,
    pub gpu_vram_gb: Option<u64>,
}

pub ghost struct ModelCompatibilityView {
    pub model: Seq<char>,
    pub can_run: bool,
    pub ram_required_gb: u64,
    pub vram_required_gb: Option<u64>,
    pub estimated_speed: Seq<char>,
}

pub ghost struct HuggingFaceCompatibilityView {
    pub model_id: Seq<char>,
    pub can_run: bool,
    pub estimated_size_mb: u64,
    pub ram_required_gb: u64,
    pub vram_required_gb: Option<u64>,
    pub model_type: Seq<char>,
    pub performance_rating: Seq<char>,
    pub recommendation: Seq<char>,
}

pub ghost struct ModelFileInfoView {
    pub rfilename: Seq<char>,
    pub size: Option<u64>,
}

pub ghost struct HuggingFaceModelInfoView {
    pub model_id: Seq<char>,
    pub model_type: Seq<char>,
    pub siblings: Option<Seq<ModelFileInfoView>>,
}

impl View for SystemInfo {
    type V = SystemInfoView;

    open spec fn view(&self) -> SystemInfoView {
        SystemInfoView {
            total_memory_gb: self.total_memory_gb,
            available_memory_gb: self.available_memory_gb,
            cpu_cores: self.cpu_cores,
            cpu_name: self.cpu_name@,
            has_gpu: self.has_gpu,
            gpu_vram_gb: self.gpu_vram_gb,
        }
    }
}

impl View for ModelCompatibility {
    type V = ModelCompatibilityView;

    open spec fn view(&self) -> ModelCompatibilityView {
        ModelCompatibilityView {
            model: self.model@,
            can_run: self.can_run,
            ram_required_gb: self.ram_required_gb,
            vram_required_gb: self.vram_required_gb,
            estimated_speed: self.estimated_speed@,
        }
    }
}

impl View for HuggingFaceCompatibility {
    type V = HuggingFaceCompatibilityView;

    open spec fn view(&self) -> HuggingFaceCompatibilityView {
        HuggingFaceCompatibilityView {
            model_id: self.model_id@,
            can_run: self.can_run,
            estimated_size_mb: self.estimated_size_mb,
            ram_required_gb: self.ram_required_gb,
            vram_required_gb: self.vram_required_gb,
            model_type: self.model_type@,
            performance_rating: self.performance_rating@,
            recommendation: self.recommendation@,
        }
    }
}

impl View for ModelFileInfo {
    type V = ModelFileInfoView;

    open spec fn view(&self) -> ModelFileInfoView {
        ModelFileInfoView { rfilename: self.rfilename@, size: self.size }
    }
}

/// The values of a list of files, in order.
pub open spec fn files_view(files: Seq<ModelFileInfo>) -> Seq<ModelFileInfoView> {
    files.map_values(|file: ModelFileInfo| file@)
}

impl View for HuggingFaceModelInfo {
    type V = HuggingFaceModelInfoView;

    open spec fn view(&self) -> HuggingFaceModelInfoView {
        HuggingFaceModelInfoView {
            model_id: self.model_id@,
            model_type: self.model_type@,
            siblings: match self.siblings {
                Some(files) => Some(files_view(files@)),
                None => None,
            },
        }
    }
}

/// The values of a list of verdicts, in order.
pub open spec fn verdicts_view(verdicts: Seq<ModelCompatibility>) -> Seq<ModelCompatibilityView> {
    verdicts.map_values(|verdict: ModelCompatibility| verdict@)
}

/// Whole gigabytes in a number of bytes.
pub open spec fn gigabytes(bytes: u64) -> u64 {
    (bytes / 1024 / 1024 / 1024) as u64
}

/// What the machine offers, from what was read of it: memory in whole
/// gigabytes, one core where the count is unknown, no name where the
/// processor gave none, and no graphics card.
pub open spec fn system_info_of(
    total_bytes: u64,
    available_bytes: u64,
    cores: Option<usize>,
    cpu_name: Option<Seq<char>>,
) -> SystemInfoView {
    SystemInfoView {
        total_memory_gb: gigabytes(total_bytes),
        available_memory_gb: gigabytes(available_bytes),
        cpu_cores: match cores {
            Some(count) => count,
            None => 1,
        },
        cpu_name: match cpu_name {
            Some(name) => name,
            None => Seq::empty(),
        },
        has_gpu: false,
        gpu_vram_gb: None,
    }
}

/// Gigabytes of memory that a standard model needs; 4 for any other name.
pub open spec fn ram_needed(model: Seq<char>) -> u64 {
    if model == "tiny"@ {
        1
    } else if model == "base"@ {
        2
    } else if model == "small"@ {
        3
    } else if model == "medium"@ {
        6
    } else if model == "large"@ {
        10
    } else {
        4
    }
}

/// Gigabytes of graphics memory that a standard model needs; unknown for
/// any other name.
pub open spec fn vram_needed(model: Seq<char>) -> Option<u64> {
    if model == "tiny"@ {
        Some(1u64)
    } else if model == "base"@ {
        Some(1u64)
    } else if model == "small"@ {
        Some(2u64)
    } else if model == "medium"@ {
        Some(4u64)
    } else if model == "large"@ {
        Some(8u64)
    } else {
        None
    }
}

/// How fast and how good a standard model is, in words.
pub open spec fn speed_of(model: Seq<char>) -> Seq<char> {
    if model == "tiny"@ {
        "rapido - qualidade basica"@
    } else if model == "base"@ {
        "muito rapido - boa qualidade"@
    } else if model == "small"@ {
        "rapido - otima qualidade"@
    } else if model == "medium"@ {
        "moderado - excelente qualidade"@
    } else if model == "large"@ {
        "lento - qualidade maxima"@
    } else {
        "depende do modelo"@
    }
}

impl SystemInfoView {
    /// Whether the graphics memory is enough. A machine without a graphics
    /// card runs the model on the processor, so the question does not arise;
    /// neither does it where the need is unknown.
    pub open spec fn vram_suffices(self, needed: Option<u64>) -> bool {
        if self.has_gpu {
            match needed {
                Some(amount) => (match self.gpu_vram_gb {
                    Some(present) => present,
                    None => 0,
                }) >= amount,
                None => true,
            }
        } else {
            true
        }
    }

    /// The verdict on the standard model `model`.
    pub open spec fn compatibility_of(self, model: Seq<char>) -> ModelCompatibilityView {
        ModelCompatibilityView {
            model,
            can_run: self.available_memory_gb >= ram_needed(model) && self.vram_suffices(
                vram_needed(model),
            ),
            ram_required_gb: ram_needed(model),
            vram_required_gb: vram_needed(model),
            estimated_speed: speed_of(model),
        }
    }

    /// The verdicts on the five standard models, smallest first.
    pub open spec fn available_models(self) -> Seq<ModelCompatibilityView> {
        seq![
            self.compatibility_of("tiny"@),
            self.compatibility_of("base"@),
            self.compatibility_of("small"@),
            self.compatibility_of("medium"@),
            self.compatibility_of("large"@),
        ]
    }
}

impl SystemInfo {
    /// What the machine offers, from what was read of it.
    pub fn from_readings(
        total_bytes: u64,
        available_bytes: u64,
        cores: Option<usize>,
        cpu_name: Option<String>,
    ) -> (info: Self)
        ensures
            info@ == system_info_of(
                total_bytes,
                available_bytes,
                cores,
                text_of(cpu_name),
            ),
    {
        SystemInfo {
            total_memory_gb: total_bytes / 1024 / 1024 / 1024,
            available_memory_gb: available_bytes / 1024 / 1024 / 1024,
            cpu_cores: match cores {
                Some(count) => count,
                None => 1,
            },
            cpu_name: match cpu_name {
                Some(name) => name,
                None => String::new(),
            },
            has_gpu: false,
            gpu_vram_gb: None,
        }
    }

    /// Whether the graphics memory is enough for a need of `needed`.
    fn vram_suffices(&self, needed: Option<u64>) -> (enough: bool)
        ensures
            enough == self@.vram_suffices(needed),
    {
        if self.has_gpu {
            match needed {
                Some(amount) => {
                    let present = match self.gpu_vram_gb {
                        Some(present) => present,
                        None => 0,
                    };
                    present >= amount
                },
                None => true,
            }
        } else {
            true
        }
    }

    /// The verdict on the standard model `model` for this machine.
    pub fn check_model_compatibility(&self, model: &str) -> (verdict: ModelCompatibility)
        ensures
            verdict@ == self@.compatibility_of(model@),
    {
        let (ram, vram, speed) = if same_text(model, "tiny") {
            (1u64, Some(1u64), "rapido - qualidade basica")
        } else if same_text(model, "base") {
            (2u64, Some(1u64), "muito rapido - boa qualidade")
        } else if same_text(model, "small") {
            (3u64, Some(2u64), "rapido - otima qualidade")
        } else if same_text(model, "medium") {
            (6u64, Some(4u64), "moderado - excelente qualidade")
        } else if same_text(model, "large") {
            (10u64, Some(8u64), "lento - qualidade maxima")
        } else {
            (4u64, None, "depende do modelo")
        };
        let enough_ram = self.available_memory_gb >= ram;
        let enough_vram = self.vram_suffices(vram);
        ModelCompatibility {
            model: String::from_str(model),
            can_run: enough_ram && enough_vram,
            ram_required_gb: ram,
            vram_required_gb: vram,
            estimated_speed: String::from_str(speed),
        }
    }

    /// The verdicts on the five standard models, smallest first.
    pub fn get_available_models(&self) -> (verdicts: Vec<ModelCompatibility>)
        ensures
            verdicts_view(verdicts@) == self@.available_models(),
    {
        let mut verdicts: Vec<ModelCompatibility> = Vec::new();
        verdicts.push(self.check_model_compatibility("tiny"));
        verdicts.push(self.check_model_compatibility("base"));
        verdicts.push(self.check_model_compatibility("small"));
        verdicts.push(self.check_model_compatibility("medium"));
        verdicts.push(self.check_model_compatibility("large"));
        assert(verdicts_view(verdicts@) =~= self@.available_models());
        verdicts
    }
}

/// Whether a file of a model holds weights, going by its name.
pub open spec fn is_weight_file(name: Seq<char>) -> bool {
    ends_with(name, ".safetensors"@) || ends_with(name, ".bin"@)
}

/// The bytes that a file adds to the size of a model: its size where it
/// holds weights and the hub tells the size, nothing otherwise.
pub open spec fn weight_of(file: ModelFileInfoView) -> nat {
    if is_weight_file(file.rfilename) {
        match file.size {
            Some(bytes) => bytes as nat,
            None => 0,
        }
    } else {
        0
    }
}

/// The sizes of the weight files among `files`, added up.
pub open spec fn weights_size(files: Seq<ModelFileInfoView>) -> nat
    decreases files.len(),
{
    if files.len() == 0 {
        0
    } else {
        weights_size(files.drop_last()) + weight_of(files.last())
    }
}

/// Whole megabytes in a number of bytes, as far as a `u64` reaches.
pub open spec fn megabytes(bytes: nat) -> u64 {
    if bytes / 1048576 <= u64::MAX {
        (bytes / 1048576) as u64
    } else {
        u64::MAX
    }
}

/// The size in megabytes and the kind of a model, guessed from its name in
/// lower case.
pub open spec fn size_by_name(lower_id: Seq<char>) -> (u64, Seq<char>) {
    if contains(lower_id, "tiny"@) {
        (150u64, "tiny"@)
    } else if contains(lower_id, "small"@) {
        (500u64, "small"@)
    } else if contains(lower_id, "medium"@) {
        (1500u64, "medium"@)
    } else if contains(lower_id, "large"@) || contains(lower_id, "turbo"@) {
        (3000u64, "large"@)
    } else if contains(lower_id, "base"@) {
        (300u64, "base"@)
    } else {
        (500u64, "unknown"@)
    }
}

/// The size in megabytes and the kind of a model: from the sizes of its
/// weight files where the hub lists any, else guessed from its name.
pub open spec fn estimated_size(
    lower_id: Seq<char>,
    info: Option<HuggingFaceModelInfoView>,
) -> (u64, Seq<char>) {
    match info {
        Some(known) => match known.siblings {
            Some(files) => if weights_size(files) > 0 {
                (megabytes(weights_size(files)), known.model_type)
            } else {
                size_by_name(lower_id)
            },
            None => size_by_name(lower_id),
        },
        None => size_by_name(lower_id),
    }
}

/// Gigabytes of memory that a model of `size_mb` megabytes needs: twice its
/// size for the running engine, and one gigabyte besides.
pub open spec fn ram_for_size(size_mb: u64) -> u64 {
    (((size_mb * 2) / 1024 + 1024) / 1024) as u64
}

/// How fast a model runs that needs so much memory, in a word.
pub open spec fn rating_of(ram_gb: u64) -> Seq<char> {
    if ram_gb <= 2 {
        "rapido"@
    } else if ram_gb <= 4 {
        "moderado"@
    } else if ram_gb <= 8 {
        "lento"@
    } else {
        "muito lento"@
    }
}

/// The advice on a model that needs `ram_gb` gigabytes where `available_gb`
/// are free.
pub open spec fn advice_of(ram_gb: u64, available_gb: u64) -> Seq<char> {
    if available_gb < ram_gb {
        "memoria insuficiente. necessario "@ + decimal_of(ram_gb as nat) + "gb, disponivel "@
            + decimal_of(available_gb as nat) + "gb"@
    } else if ram_gb > 4 {
        "considere usar um modelo menor para melhor performance"@
    } else {
        "modelo adequado para este sistema"@
    }
}

impl SystemInfoView {
    /// The verdict on the hub model `model_id` of `size_mb` megabytes and
    /// kind `model_type`.
    pub open spec fn hub_compatibility_of(
        self,
        model_id: Seq<char>,
        size_mb: u64,
        model_type: Seq<char>,
    ) -> HuggingFaceCompatibilityView {
        let ram = ram_for_size(size_mb);
        let vram = if self.has_gpu {
            Some(ram)
        } else {
            None
        };
        HuggingFaceCompatibilityView {
            model_id,
            can_run: self.available_memory_gb >= ram && (match vram {
                Some(amount) => (match self.gpu_vram_gb {
                    Some(present) => present,
                    None => 0,
                }) >= amount,
                None => true,
            }),
            estimated_size_mb: size_mb,
            ram_required_gb: ram,
            vram_required_gb: vram,
            model_type,
            performance_rating: rating_of(ram),
            recommendation: advice_of(ram, self.available_memory_gb),
        }
    }
}

/// The sum of at most `count` sizes is at most `count` times the largest
/// size there is.
proof fn lemma_weights_size_bound(files: Seq<ModelFileInfoView>)
    ensures
        weights_size(files) <= files.len() * 0xffff_ffff_ffff_ffff,
    decreases files.len(),
{
    if files.len() > 0 {
        lemma_weights_size_bound(files.drop_last());
        assert((files.len() - 1) * 0xffff_ffff_ffff_ffff + 0xffff_ffff_ffff_ffff == files.len()
            * 0xffff_ffff_ffff_ffff) by (nonlinear_arith);
    }
}

/// Whether a file of a model holds weights, going by its name.
pub fn holds_weights(name: &str) -> (weights: bool)
    ensures
        weights == is_weight_file(name@),
{
    has_suffix(name, ".safetensors") || has_suffix(name, ".bin")
}

/// The sizes of the weight files among `files`, added up.
pub fn total_weights(files: &Vec<ModelFileInfo>) -> (total: u128)
    ensures
        total == weights_size(files_view(files@)),
{
    let ghost all = files_view(files@);
    let mut total: u128 = 0;
    let mut i: usize = 0;
    while i < files.len()
        invariant
            i <= files@.len(),
            all == files_view(files@),
            total == weights_size(all.take(i as int)),
        decreases files@.len() - i,
    {
        let file = &files[i];
        let added: u64 = if holds_weights(file.rfilename.as_str()) {
            match file.size {
                Some(bytes) => bytes,
                None => 0,
            }
        } else {
            0
        };
        proof {
            let upto = all.take(i + 1);
            assert(upto.drop_last() =~= all.take(i as int));
            assert(upto.last() == files@[i as int]@);
            assert(added == weight_of(upto.last()));
            lemma_weights_size_bound(upto);
            assert((i + 1) * 0xffff_ffff_ffff_ffff <= 0xffff_ffff_ffff_ffff * 0xffff_ffff_ffff_ffff)
                by (nonlinear_arith)
                requires
                    0 <= i + 1 <= 0xffff_ffff_ffff_ffff,
            ;
        }
        total = total + added as u128;
        i += 1;
    }
    assert(all.take(files@.len() as int) =~= all);
    total
}

/// The size in megabytes and the kind of a model, guessed from its name,
/// which is given in lower case.
pub fn estimate_from_name(lower_id: &str) -> (guess: (u64, String))
    ensures
        (guess.0, guess.1@) == size_by_name(lower_id@),
{
    if has_part(lower_id, "tiny") {
        (150, String::from_str("tiny"))
    } else if has_part(lower_id, "small") {
        (500, String::from_str("small"))
    } else if has_part(lower_id, "medium") {
        (1500, String::from_str("medium"))
    } else if has_part(lower_id, "large") || has_part(lower_id, "turbo") {
        (3000, String::from_str("large"))
    } else if has_part(lower_id, "base") {
        (300, String::from_str("base"))
    } else {
        (500, String::from_str("unknown"))
    }
}

/// The size in megabytes and the kind of the hub model `model_id`: from the
/// sizes of its weight files where `model_info` lists any, else guessed from
/// the name in lower case.
pub fn estimate_model_size(model_id: &str, model_info: Option<&HuggingFaceModelInfo>) -> (estimate:
    (u64, String))
    ensures
        (estimate.0, estimate.1@) == estimated_size(
            lowercase_of(model_id@),
            match model_info {
                Some(info) => Some(info@),
                None => None,
            },
        ),
{
    if let Some(info) = model_info {
        if let Some(files) = &info.siblings {
            let total = total_weights(files);
            if total > 0 {
                let whole = total / 1048576;
                let size_mb: u64 = if whole > u64::MAX as u128 {
                    u64::MAX
                } else {
                    whole as u64
                };
                return (size_mb, info.model_type.clone());
            }
        }
    }
    let lower_id = lowercase(model_id);
    estimate_from_name(lower_id.as_str())
}

/// Gigabytes of memory that a model of `size_mb` megabytes needs.
pub fn ram_required_for(size_mb: u64) -> (ram_gb: u64)
    ensures
        ram_gb == ram_for_size(size_mb),
{
    let doubled: u128 = size_mb as u128 * 2;
    ((doubled / 1024 + 1024) / 1024) as u64
}

/// The advice on a model that needs `ram_gb` gigabytes where `available_gb`
/// are free.
pub fn recommend(ram_gb: u64, available_gb: u64) -> (advice: String)
    ensures
        advice@ == advice_of(ram_gb, available_gb),
{
    if available_gb < ram_gb {
        let mut advice = String::from_str("memoria insuficiente. necessario ");
        advice.append(decimal(ram_gb).as_str());
        advice.append("gb, disponivel ");
        advice.append(decimal(available_gb).as_str());
        advice.append("gb");
        advice
    } else if ram_gb > 4 {
        String::from_str("considere usar um modelo menor para melhor performance")
    } else {
        String::from_str("modelo adequado para este sistema")
    }
}

impl SystemInfo {
    /// The verdict for this machine on the hub model `model_id` of `size_mb`
    /// megabytes and kind `model_type`.
    pub fn judge_hub_model(&self, model_id: &str, size_mb: u64, model_type: String) -> (verdict:
        HuggingFaceCompatibility)
        ensures
            verdict@ == self@.hub_compatibility_of(model_id@, size_mb, model_type@),
    {
        let ram = ram_required_for(size_mb);
        let vram = if self.has_gpu {
            Some(ram)
        } else {
            None
        };
        let enough_ram = self.available_memory_gb >= ram;
        let enough_vram = match vram {
            Some(amount) => {
                let present = match self.gpu_vram_gb {
                    Some(present) => present,
                    None => 0,
                };
                present >= amount
            },
            None => true,
        };
        let rating = if ram <= 2 {
            "rapido"
        } else if ram <= 4 {
            "moderado"
        } else if ram <= 8 {
            "lento"
        } else {
            "muito lento"
        };
        HuggingFaceCompatibility {
            model_id: String::from_str(model_id),
            can_run: enough_ram && enough_vram,
            estimated_size_mb: size_mb,
            ram_required_gb: ram,
            vram_required_gb: vram,
            model_type,
            performance_rating: String::from_str(rating),
            recommendation: recommend(ram, self.available_memory_gb),
        }
    }

    /// The verdict for this machine on the hub model `model_id`, given what
    /// the hub said of it, if it answered.
    pub fn check_huggingface_model(
        &self,
        model_id: &str,
        model_info: Option<&HuggingFaceModelInfo>,
    ) -> (verdict: HuggingFaceCompatibility)
        ensures
            verdict@ == self@.hub_compatibility_of(
                model_id@,
                estimated_size(
                    lowercase_of(model_id@),
                    match model_info {
                        Some(info) => Some(info@),
                        None => None,
                    },
                ).0,
                estimated_size(
                    lowercase_of(model_id@),
                    match model_info {
                        Some(info) => Some(info@),
                        None => None,
                    },
                ).1,
            ),
    {
        let (size_mb, model_type) = estimate_model_size(model_id, model_info);
        self.judge_hub_model(model_id, size_mb, model_type)
    }
}

/// Declares `sysinfo::System`, the state of the machine as it was read, as
/// a type whose values are carried and never looked into.
#[verifier::external_type_specification]
#[verifier::external_body]
pub struct ExSystem(System);

/// Calls `sysinfo::System::new_all`, which reads the state of the machine.
/// Nothing is claimed of what it read.
#[verifier::external_body]
fn read_system() -> (sys: System) {
    System::new_all()
}

/// Calls `sysinfo::System::total_memory`: the size of the memory in bytes,
/// as it was read. Nothing is claimed of the number.
#[verifier::external_body]
fn total_memory(sys: &System) -> (bytes: u64) {
    sys.total_memory()
}

/// Calls `sysinfo::System::available_memory`: the memory in bytes that was
/// free for use when it was read. Nothing is claimed of the number.
#[verifier::external_body]
fn available_memory(sys: &System) -> (bytes: u64) {
    sys.available_memory()
}

/// Calls `sysinfo::System::physical_core_count`, which counts the physical
/// cores anew at every call and gives `None` where it cannot. Nothing is
/// claimed of the answer.
#[verifier::external_body]
fn physical_core_count() -> (cores: Option<usize>) {
    System::physical_core_count()
}

/// Declares `sysinfo::Cpu`, one processor of the machine, as a type whose
/// values are carried and never looked into.
#[verifier::external_type_specification]
#[verifier::external_body]
pub struct ExCpu(Cpu);

/// Calls `sysinfo::System::cpus`: the processors that were found when the
/// machine was read. Nothing is claimed of the list.
#[verifier::external_body]
fn cpus(sys: &System) -> (found: &[Cpu]) {
    sys.cpus()
}

/// Calls `sysinfo::Cpu::brand`: the brand name of a processor, as it was
/// read. Nothing is claimed of the name.
#[verifier::external_body]
fn brand(cpu: &Cpu) -> (name: String) {
    cpu.brand().to_string()
}

/// Reads the machine and judges models against it.
pub struct HardwareDetector {
    machine: Readings,
}

impl HardwareDetector {
    /// Reads the state of the machine once. Always succeeds.
    pub fn new() -> (detector: Result<Self, SetupError>)
        ensures
            detector is Ok,
    {
        Ok(HardwareDetector { machine: read_machine() })
    }

    /// What the machine offers, as it was read. The machine is taken to have
    /// no graphics card.
    pub fn get_system_info(&self) -> (info: SystemInfo)
        ensures
            exists|cores: Option<usize>| #[trigger] self@.info(cores) == info@,
            info@.total_memory_gb == gigabytes(self@.total_bytes),
            info@.available_memory_gb == gigabytes(self@.available_bytes),
            info@.cpu_name == self@.info(None).cpu_name,
            !info@.has_gpu,
            info@.gpu_vram_gb is None,
    {
        let cpu_name = match &self.machine.cpu_name {
            Some(name) => Some(name.clone()),
            None => None,
        };
        let cores = physical_core_count();
        let info = SystemInfo::from_readings(
            self.machine.total_bytes,
            self.machine.available_bytes,
            cores,
            cpu_name,
        );
        assert(self@.info(cores) == info@);
        info
    }

    /// The verdict on the standard model `model` for the machine as it was
    /// read. It does not depend on the number of cores.
    pub fn check_model_compatibility(&self, model: &str) -> (verdict: ModelCompatibility)
        ensures
            verdict@ == self@.info(None).compatibility_of(model@),
    {
        let info = self.get_system_info();
        info.check_model_compatibility(model)
    }

    /// The verdicts on the five standard models, smallest first, for the
    /// machine as it was read.
    pub fn get_available_models(&self) -> (verdicts: Vec<ModelCompatibility>)
        ensures
            verdicts_view(verdicts@) == self@.info(None).available_models(),
    {
        let info = self.get_system_info();
        info.get_available_models()
    }

    /// The verdict on the hub model `model_id` for the machine as it was
    /// read, given what the hub said of the model, if it answered.
    pub fn check_huggingface_model(
        &self,
        model_id: &str,
        model_info: Option<&HuggingFaceModelInfo>,
    ) -> (verdict: HuggingFaceCompatibility)
        ensures
            verdict@ == self@.info(None).hub_compatibility_of(
                model_id@,
                estimated_size(
                    lowercase_of(model_id@),
                    match model_info {
                        Some(info) => Some(info@),
                        None => None,
                    },
                ).0,
                estimated_size(
                    lowercase_of(model_id@),
                    match model_info {
                        Some(info) => Some(info@),
                        None => None,
                    },
                ).1,
            ),
    {
        let info = self.get_system_info();
        info.check_huggingface_model(model_id, model_info)
    }
}

/// What was read of the machine when the detector was made.
struct Readings {
    total_bytes: u64,
    available_bytes: u64,
    cpu_name: Option<String>,
}

/// The mathematical value of a [`HardwareDetector`]: the size of the memory
/// and the part of it that was free for use, in bytes, and the brand name of
/// the first processor, if one was found.
pub ghost struct ReadingsView {
    pub total_bytes: u64,
    pub available_bytes: u64,
    pub cpu_name: Option<Seq<char>>,
}

impl ReadingsView {
    /// What the machine offers, given the number of cores that was counted.
    pub open spec fn info(self, cores: Option<usize>) -> SystemInfoView {
        system_info_of(self.total_bytes, self.available_bytes, cores, self.cpu_name)
    }
}

impl View for HardwareDetector {
    type V = ReadingsView;

    closed spec fn view(&self) -> ReadingsView {
        ReadingsView {
            total_bytes: self.machine.total_bytes,
            available_bytes: self.machine.available_bytes,
            cpu_name: text_of(self.machine.cpu_name),
        }
    }
}

/// Reads the machine: its memory, and the brand of the first processor in
/// the list, if the list has one.
fn read_machine() -> Readings {
    let sys = read_system();
    let total_bytes = total_memory(&sys);
    let available_bytes = available_memory(&sys);
    let found = cpus(&sys);
    let cpu_name = if found.len() > 0 {
        Some(brand(&found[0]))
    } else {
        None
    };
    Readings { total_bytes, available_bytes, cpu_name }
}

} // verus!
