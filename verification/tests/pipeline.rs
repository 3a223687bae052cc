use whisperia::audio::{AudioRecorder, DeviceProbe, SampleFormat};
use whisperia::config::Config;
use whisperia::error::{Busy, PipelineError};
use whisperia::overlay::{AppEvent, OverlayCommand, OverlayState};
use whisperia::pipeline::{
    overlay_position, Action, Event, Orchestrator, Reaction, RECORD_SECONDS, RESULT_HOLD_MILLIS,
};
use whisperia::status::{AppStatus, Phase};

fn machine() -> Orchestrator<f32> {
    Orchestrator::new(Config::default(), RECORD_SECONDS, RESULT_HOLD_MILLIS)
}

fn notify(event: &str, payload: &str) -> Action<f32> {
    Action::Notify { event: event.to_string(), payload: payload.to_string() }
}

fn status(phase: Phase, last: Option<&str>) -> AppStatus {
    AppStatus { phase, last_result: last.map(|text| text.to_string()) }
}

fn completion(text: &str, hold: u64) -> Vec<Action<f32>> {
    vec![
        notify("transcription-update", text),
        notify("status-update", "Ready"),
        notify("transcription-complete", text),
        Action::Overlay(OverlayCommand::Show(OverlayState::Result(text.to_string()))),
        Action::HideOverlayAfter { millis: hold },
    ]
}

fn transcribing(machine: &mut Orchestrator<f32>) {
    machine.trigger(None).unwrap();
    machine.advance(Event::Captured(vec![0.0; 4]));
}

fn typing(machine: &mut Orchestrator<f32>, text: &str) {
    transcribing(machine);
    machine.advance(Event::Transcribed(text.to_string()));
}

#[test]
fn new_pipeline_is_idle() {
    let machine = machine();
    assert_eq!(machine.read_status(), status(Phase::Idle, None));
    assert!(!machine.in_flight());
    assert_eq!(machine.get_config(), Config::default());
}

#[test]
fn trigger_starts_recording_and_asks_for_capture() {
    let mut machine = machine();
    let actions = machine.trigger(Some((500, 300))).unwrap();
    assert_eq!(
        actions,
        vec![
            Action::PlaceOverlay { x: 300, y: 225 },
            Action::Overlay(OverlayCommand::Show(OverlayState::Listening)),
            notify("status-update", "Recording..."),
            Action::Capture { seconds: 5 },
        ]
    );
    assert_eq!(machine.read_status(), status(Phase::Recording, None));
    assert!(machine.in_flight());
}

#[test]
fn trigger_while_recording_is_busy_and_changes_nothing() {
    let mut machine = machine();
    machine.trigger(None).unwrap();
    let before = machine.read_status();
    assert_eq!(machine.trigger(Some((1, 2))), Err(Busy));
    assert_eq!(machine.read_status(), before);
    assert_eq!(machine.read_status(), status(Phase::Recording, None));
    // the first run goes on undisturbed
    let next = machine.advance(Event::Captured(vec![0.5]));
    assert_eq!(next.len(), 3);
    assert_eq!(machine.read_status(), status(Phase::Transcribing, None));
}

#[test]
fn trigger_while_transcribing_is_busy_and_changes_nothing() {
    let mut machine = machine();
    transcribing(&mut machine);
    assert_eq!(machine.trigger(None), Err(Busy));
    assert_eq!(machine.read_status(), status(Phase::Transcribing, None));
    typing_again_is_busy(&mut machine);
}

fn typing_again_is_busy(machine: &mut Orchestrator<f32>) {
    machine.advance(Event::Transcribed("abc".to_string()));
    assert_eq!(machine.trigger(None), Err(Busy));
    assert_eq!(machine.read_status(), status(Phase::Transcribing, None));
}

#[test]
fn successful_run_ends_idle_with_the_text() {
    let mut machine = machine();
    machine.trigger(None).unwrap();
    let samples = vec![0.25f32; 80000];
    let asked = machine.advance(Event::Captured(samples.clone()));
    assert_eq!(
        asked,
        vec![
            notify("status-update", "Transcribing..."),
            Action::Overlay(OverlayCommand::Update(OverlayState::Transcribing)),
            Action::Transcribe {
                samples,
                model_file: "ggml-base.bin".to_string(),
                language: "pt".to_string(),
            },
        ]
    );
    assert_eq!(machine.read_status(), status(Phase::Transcribing, None));
    let asked = machine.advance(Event::Transcribed("hello world".to_string()));
    assert_eq!(asked, vec![Action::TypeText("hello world".to_string())]);
    assert_eq!(machine.read_status(), status(Phase::Transcribing, None));
    let asked = machine.advance(Event::Typed);
    assert_eq!(asked, completion("hello world", 1000));
    assert_eq!(machine.read_status(), status(Phase::Idle, Some("hello world")));
    assert!(!machine.in_flight());
}

#[test]
fn five_seconds_at_44100_run_through_to_hello_world() {
    let mut machine = machine();
    let started = machine.trigger(None).unwrap();
    let seconds = match started[3] {
        Action::Capture { seconds } => seconds,
        _ => panic!("no capture asked for"),
    };
    assert_eq!(seconds, 5);

    let session =
        AudioRecorder::new(DeviceProbe::Ready { sample_rate: 44100, format: SampleFormat::F32 })
            .unwrap();
    let mut buffer = session.begin::<f32>(seconds).unwrap();
    while !buffer.is_full() {
        buffer.extend(&[0.0f32; 4410]);
    }
    assert_eq!(buffer.len(), 5 * 44100);
    let samples = session.finish(buffer.into_samples(), |a: f32, b: f32, num: u32, den: u32| {
        let t = num as f32 / den as f32;
        a * (1.0 - t) + b * t
    });
    assert_eq!(samples.len(), 80000);

    let asked = machine.advance(Event::Captured(samples));
    assert!(matches!(&asked[2], Action::Transcribe { samples, .. } if samples.len() == 80000));
    machine.advance(Event::Transcribed("hello world".to_string()));
    machine.advance(Event::Typed);
    assert_eq!(machine.read_status(), status(Phase::Idle, Some("hello world")));
}

#[test]
fn capture_failure_with_no_input_device() {
    let mut machine = machine();
    typing(&mut machine, "earlier");
    machine.advance(Event::Typed);
    machine.trigger(None).unwrap();
    let asked = machine.advance(Event::Failed(PipelineError::NoInputDevice));
    assert_eq!(
        asked,
        vec![
            notify("status-update", "Error: no input device"),
            notify("transcription-error", "Audio recorder error: no input device"),
            Action::Overlay(OverlayCommand::Hide),
        ]
    );
    assert_eq!(
        machine.read_status(),
        status(Phase::Error("no input device".to_string()), Some("earlier"))
    );
    assert!(!machine.in_flight());
}

#[test]
fn every_error_has_its_message_and_label() {
    let cases = vec![
        (PipelineError::NoInputDevice, "no input device", "Audio recorder error: "),
        (PipelineError::DeviceConfigError("cfg".to_string()), "cfg", "Audio recorder error: "),
        (PipelineError::UnsupportedAudioFormat, "unsupported sample format", "Recording error: "),
        (PipelineError::DeviceStreamError("xrun".to_string()), "xrun", "Recording error: "),
        (
            PipelineError::ModelNotFound,
            "Model not found. Use download-models.sh or --model-path",
            "Model error: ",
        ),
        (PipelineError::TranscriptionFailure("oom".to_string()), "oom", "Transcription failed: "),
        (PipelineError::InjectionFailure("no display".to_string()), "no display", "Input error: "),
    ];
    for (error, message, label) in cases {
        assert_eq!(error.message(), message);
        assert_eq!(error.label(), label);
        assert_eq!(error.clone(), error);
    }
}

#[test]
fn transcription_failure_ends_in_error() {
    let mut machine = machine();
    transcribing(&mut machine);
    let asked = machine.advance(Event::Failed(PipelineError::ModelNotFound));
    assert_eq!(
        asked,
        vec![
            notify(
                "status-update",
                "Error: Model not found. Use download-models.sh or --model-path"
            ),
            notify(
                "transcription-error",
                "Model error: Model not found. Use download-models.sh or --model-path"
            ),
            Action::Overlay(OverlayCommand::Hide),
        ]
    );
    assert_eq!(
        machine.read_status(),
        status(
            Phase::Error("Model not found. Use download-models.sh or --model-path".to_string()),
            None
        )
    );
}

#[test]
fn injection_failure_still_completes() {
    let mut machine = machine();
    typing(&mut machine, "ola");
    let asked = machine.advance(Event::Failed(PipelineError::InjectionFailure("no display".to_string())));
    let mut expected = vec![notify("status-update", "Error typing: no display")];
    expected.extend(completion("ola", 1000));
    assert_eq!(asked, expected);
    assert_eq!(machine.read_status(), status(Phase::Idle, Some("ola")));
    assert!(!machine.in_flight());
}

#[test]
fn error_phase_admits_the_next_trigger() {
    let mut machine = machine();
    machine.trigger(None).unwrap();
    machine.advance(Event::Failed(PipelineError::DeviceStreamError("lost".to_string())));
    assert_eq!(machine.read_status(), status(Phase::Error("lost".to_string()), None));
    assert!(machine.trigger(None).is_ok());
    assert_eq!(machine.read_status(), status(Phase::Recording, None));
}

#[test]
fn reports_out_of_turn_change_nothing() {
    let mut machine = machine();
    assert_eq!(machine.advance(Event::Typed), vec![]);
    assert_eq!(machine.advance(Event::Captured(vec![1.0])), vec![]);
    assert_eq!(machine.advance(Event::Failed(PipelineError::NoInputDevice)), vec![]);
    assert_eq!(machine.read_status(), status(Phase::Idle, None));

    machine.trigger(None).unwrap();
    assert_eq!(machine.advance(Event::Transcribed("x".to_string())), vec![]);
    assert_eq!(machine.advance(Event::Typed), vec![]);
    assert_eq!(machine.read_status(), status(Phase::Recording, None));

    machine.advance(Event::Captured(vec![]));
    assert_eq!(machine.advance(Event::Captured(vec![1.0])), vec![]);
    assert_eq!(machine.advance(Event::Typed), vec![]);
    assert_eq!(machine.read_status(), status(Phase::Transcribing, None));

    machine.advance(Event::Transcribed("kept".to_string()));
    assert_eq!(machine.advance(Event::Transcribed("other".to_string())), vec![]);
    assert_eq!(machine.advance(Event::Captured(vec![1.0])), vec![]);
    machine.advance(Event::Typed);
    assert_eq!(machine.read_status(), status(Phase::Idle, Some("kept")));
}

#[test]
fn every_run_ends_idle_or_in_error() {
    let endings: Vec<Vec<Event<f32>>> = vec![
        vec![Event::Failed(PipelineError::NoInputDevice)],
        vec![Event::Captured(vec![]), Event::Failed(PipelineError::ModelNotFound)],
        vec![Event::Captured(vec![]), Event::Transcribed("t".to_string()), Event::Typed],
        vec![
            Event::Captured(vec![]),
            Event::Transcribed("t".to_string()),
            Event::Failed(PipelineError::InjectionFailure("e".to_string())),
        ],
    ];
    for events in endings {
        let mut machine = machine();
        machine.trigger(None).unwrap();
        for event in events {
            machine.advance(event);
        }
        assert!(!machine.in_flight());
        let phase = machine.read_status().phase;
        assert!(matches!(phase, Phase::Idle | Phase::Error(_)));
    }
}

#[test]
fn finish_resolves_a_run_left_in_flight() {
    let mut machine = machine();
    typing(&mut machine, "first");
    machine.advance(Event::Typed);
    transcribing(&mut machine);
    let asked = machine.finish();
    assert_eq!(
        asked,
        vec![
            notify("status-update", "Error: run ended unexpectedly"),
            notify("transcription-error", "run ended unexpectedly"),
            Action::Overlay(OverlayCommand::Hide),
        ]
    );
    assert_eq!(
        machine.read_status(),
        status(Phase::Error("run ended unexpectedly".to_string()), Some("first"))
    );
    assert!(!machine.in_flight());
    assert!(machine.trigger(None).is_ok());
}

#[test]
fn finish_leaves_a_resting_pipeline_alone() {
    let mut machine = machine();
    assert_eq!(machine.finish(), vec![]);
    assert_eq!(machine.read_status(), status(Phase::Idle, None));
    typing(&mut machine, "done");
    machine.advance(Event::Typed);
    assert_eq!(machine.finish(), vec![]);
    assert_eq!(machine.read_status(), status(Phase::Idle, Some("done")));
}

#[test]
fn settings_in_force_shape_the_next_step() {
    let mut machine: Orchestrator<f32> = Orchestrator::new(Config::default(), 7, 2000);
    let started = machine.trigger(None).unwrap();
    assert_eq!(started[3], Action::Capture { seconds: 7 });
    let mut config = Config::default();
    config.language = "en".to_string();
    config.model.local_model = "small".to_string();
    machine.update_config(config);
    assert_eq!(machine.read_status(), status(Phase::Recording, None));
    let asked = machine.advance(Event::Captured(vec![0.5]));
    assert_eq!(
        asked[2],
        Action::Transcribe {
            samples: vec![0.5],
            model_file: "ggml-small.bin".to_string(),
            language: "en".to_string(),
        }
    );
    machine.advance(Event::Transcribed("hi".to_string()));
    assert_eq!(machine.advance(Event::Typed), completion("hi", 2000));
}

#[test]
fn overlay_sits_left_and_above_the_cursor() {
    assert_eq!(overlay_position(Some((500, 300))), (300, 225));
    assert_eq!(overlay_position(Some((0, 0))), (-200, -75));
    assert_eq!(overlay_position(None), (-100, 25));
    assert_eq!(overlay_position(Some((i32::MIN + 10, i32::MIN))), (i32::MIN, i32::MIN));
    assert_eq!(overlay_position(Some((i32::MAX, i32::MAX))), (i32::MAX - 200, i32::MAX - 75));
}

#[test]
fn front_end_events_map_to_reactions() {
    let mut machine = machine();
    assert_eq!(machine.react(AppEvent::StopRecording, None), Reaction::Nothing);
    assert_eq!(machine.react(AppEvent::OpenSettings, None), Reaction::ShowSettings);
    assert_eq!(machine.react(AppEvent::Quit, None), Reaction::Exit);
    assert_eq!(machine.read_status(), status(Phase::Idle, None));
    match machine.react(AppEvent::StartRecording, Some((200, 75))) {
        Reaction::Run(actions) => {
            assert_eq!(actions.len(), 4);
            assert_eq!(actions[0], Action::PlaceOverlay { x: 0, y: 0 });
        }
        other => panic!("expected a run, got {:?}", other),
    }
    assert_eq!(machine.react(AppEvent::StartRecording, None), Reaction::Rejected);
    assert_eq!(machine.react(AppEvent::StopRecording, None), Reaction::Nothing);
    assert_eq!(machine.read_status(), status(Phase::Recording, None));
}
