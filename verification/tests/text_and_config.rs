use anotadoria::audio_capture::{check_sample_format, SampleFormat, NO_INPUT_DEVICE};
use anotadoria::config::{missing_config_message, select_config_path, AppConfig};
use anotadoria::prompt_templates::{CLEANER_SYSTEM, SUMMARIZER_SYSTEM};
use anotadoria::text::{concat_str, decimal_string, replace_all_str};
use anotadoria::waveform_analyzer::{downsample_bins, WAVEFORM_BINS};

#[test]
fn config_path_prefers_working_directory() {
    assert_eq!(select_config_path(true, true), Some("config.toml".to_string()));
    assert_eq!(select_config_path(true, false), Some("config.toml".to_string()));
    assert_eq!(select_config_path(false, true), Some("../config.toml".to_string()));
    assert_eq!(select_config_path(false, false), None);
}

#[test]
fn config_holds_optional_fields() {
    let config = AppConfig {
        vault_path: "/vault".to_string(),
        deepgram_api_key: "key".to_string(),
        language: "es".to_string(),
        model_stt: "nova-3".to_string(),
        llm_proxy_url: "http://127.0.0.1:8000/v1/chat/completions".to_string(),
        llm_model: "gemini-2.5-flash".to_string(),
        llm_timeout_secs: None,
        note_subfolder: Some("Sesiones".to_string()),
    };
    let copy = config.clone();
    assert_eq!(copy.note_subfolder.as_deref(), Some("Sesiones"));
    assert_eq!(copy.llm_timeout_secs, None);
}

#[test]
fn replace_all_left_to_right_without_overlap() {
    assert_eq!(replace_all_str("aaa", "aa", "b"), "ba");
    assert_eq!(replace_all_str("abcabc", "bc", "X"), "aXaX");
    assert_eq!(replace_all_str("", "x", "y"), "");
    assert_eq!(replace_all_str("sesión/ñ", "ñ", "n"), "sesión/n");
    assert_eq!(replace_all_str("abc", "abcd", "z"), "abc");
}

#[test]
fn decimal_rendering() {
    assert_eq!(decimal_string(0), "0");
    assert_eq!(decimal_string(7), "7");
    assert_eq!(decimal_string(404), "404");
    assert_eq!(decimal_string(18446744073709551615), "18446744073709551615");
}

#[test]
fn concat_joins() {
    assert_eq!(concat_str("Token ", "abc"), "Token abc");
    assert_eq!(concat_str("", ""), "");
}

#[test]
fn bins_of_even_buffer() {
    let bins = downsample_bins(128, WAVEFORM_BINS);
    assert_eq!(bins.len(), 64);
    assert_eq!(bins[0], (0, 2));
    assert_eq!(bins[1], (2, 4));
    assert_eq!(bins[63], (126, 128));
}

#[test]
fn bins_drop_remainder() {
    let bins = downsample_bins(130, 64);
    assert_eq!(bins.len(), 64);
    assert_eq!(bins[63], (126, 128));
    let bins = downsample_bins(1000, 3);
    assert_eq!(bins, vec![(0, 333), (333, 666), (666, 999)]);
}

#[test]
fn bins_of_short_or_empty_buffer_are_silent() {
    assert_eq!(downsample_bins(10, 64), vec![(0, 0); 64]);
    assert_eq!(downsample_bins(0, 64), vec![(0, 0); 64]);
    assert_eq!(downsample_bins(0, 0), Vec::<(usize, usize)>::new());
}

#[test]
fn only_f32_streams_are_accepted() {
    assert_eq!(check_sample_format(SampleFormat::F32), Ok(()));
    assert_eq!(
        check_sample_format(SampleFormat::I16),
        Err("Formato de audio no soportado (solo f32)".to_string())
    );
    assert!(check_sample_format(SampleFormat::F64).is_err());
    assert!(check_sample_format(SampleFormat::Other).is_err());
    assert_eq!(NO_INPUT_DEVICE, "No se encontró dispositivo de entrada por defecto");
}

#[test]
fn cleaner_prompt_forbids_changing_meaning() {
    assert!(CLEANER_SYSTEM.starts_with("Eres un editor técnico."));
    assert!(CLEANER_SYSTEM.contains("NO debes: - Cambiar el significado de ninguna decisión mencionada."));
    assert!(CLEANER_SYSTEM.contains("corte de audio. NO debes"));
    assert!(CLEANER_SYSTEM.ends_with("sin markdown."));
}

#[test]
fn summarizer_prompt_has_summary_structure() {
    assert!(SUMMARIZER_SYSTEM.contains("\n\n## Resumen\n\n### Temas tratados\n- [tema conciso]\n"));
    assert!(SUMMARIZER_SYSTEM.contains("### Action Items\n- [ ] [acción con verbo en infinitivo]\n"));
    assert!(SUMMARIZER_SYSTEM.contains("Máximo 8 bullets por sección."));
    assert!(SUMMARIZER_SYSTEM.ends_with("No incluyas secciones vacías."));
}

#[test]
fn missing_config_message_names_both_places() {
    assert_eq!(
        missing_config_message("\"/home/u/app/config.toml\"", "\"/home/u/app\""),
        "No se encontró config.toml en \"/home/u/app/config.toml\" ni en el directorio superior. CWD: \"/home/u/app\""
    );
}
