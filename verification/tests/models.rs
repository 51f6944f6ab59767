use dictate::eval::model_by_id_or_error;
use dictate::eval::selected_model;
use dictate::models::default_model;
use dictate::models::default_model_id;
use dictate::models::model_by_id;
use dictate::models::valid_model_ids;
use dictate::models::ModelCatalogEntry;
use dictate::models::VadModel;
use dictate::models::DEFAULT_MODEL_ID_STR;
use dictate::settings::Settings;
use dictate::tauri_models::model_from_names;
use dictate::tauri_models::EngineConfig;
use dictate::tauri_models::path_engine;
use dictate::tauri_models::whisper_load_failure;
use dictate::tauri_models::PathEngine;
use dictate::tauri_models::needs_engine_load;
use dictate::tauri_models::transcribe_plan;
use dictate::tauri_models::TranscribePlan;
use dictate::tauri_models::storage_info;
use dictate::tauri_models::ModelNameError;
use dictate::tauri_models::Model;
use dictate::tauri_models::MoonshineModel;
use dictate::tauri_models::ParakeetTdtModel;
use dictate::tauri_models::WhisperModel;
use dictate::tauri_models::size_is_fresh;
use dictate::tauri_models::size_sources;
use dictate::tauri_models::SizeSource;
use dictate::tauri_models::sizes_after_fetch;
use dictate::tauri_models::EngineCache;
use dictate::time::Moment;

#[test]
fn test_all_models_count() {
    assert_eq!(Model::all().len(), 12);
}

#[test]
fn test_model_storage_name() {
    let model = Model::Whisper(WhisperModel::BaseEn);
    assert_eq!(model.storage_name(), "sherpa-onnx-whisper-base.en");
}

#[test]
fn test_preferred_or_default_with_valid_preference() {
    let model = Model::preferred_or_default(Some(Model::Whisper(WhisperModel::SmallEn)));
    assert_eq!(model, Model::Whisper(WhisperModel::SmallEn));
}

#[test]
fn test_preferred_or_default_fallback_to_moonshine() {
    let model = Model::preferred_or_default(None);
    assert_eq!(model, Model::Moonshine(MoonshineModel::TinyEn));
}

#[test]
fn test_all_models_are_directories() {
    for model in Model::all() {
        assert!(model.is_directory(), "{:?} should be a directory", model);
    }
}

#[test]
fn test_all_models_have_download_urls() {
    for model in Model::all() {
        assert!(
            !model.download_url().is_empty(),
            "{:?} missing download URL",
            model
        );
    }
}

#[test]
fn invalid_model_override_reports_valid_ids_without_loading_model() {
    let error = model_by_id_or_error("not-a-model").unwrap_err();

    assert!(error.contains("not-a-model"));
    assert!(error.contains(DEFAULT_MODEL_ID_STR));
}

#[test]
fn override_message_names_the_id_and_an_example() {
    let error = model_by_id_or_error("x").unwrap_err();
    assert!(error.starts_with("unknown model id \"x\"; valid model ids: whisper-tiny-en, "));
    assert!(error.ends_with("; example: --model parakeet-tdt-0.6b-v2-int8"));
}

#[test]
fn override_wins_over_settings() {
    let settings = Settings::default();
    let chosen = selected_model(&settings, Some("whisper-base-en")).unwrap();
    assert_eq!(chosen.id().as_str(), "whisper-base-en");
    let fallback = selected_model(&settings, None).unwrap();
    assert_eq!(fallback.id().as_str(), DEFAULT_MODEL_ID_STR);
}

#[test]
fn default_model_is_in_the_catalog() {
    assert_eq!(default_model_id().as_str(), DEFAULT_MODEL_ID_STR);
    assert_eq!(model_by_id(DEFAULT_MODEL_ID_STR), Some(default_model()));
    assert_eq!(model_by_id("nope"), None);
    let ids = valid_model_ids();
    for entry in ModelCatalogEntry::all() {
        assert!(ids.contains(entry.id().as_str()));
        assert_eq!(model_by_id(entry.id().as_str()), Some(entry));
    }
}

#[test]
fn catalog_urls_and_directories() {
    let entry = default_model();
    assert_eq!(
        entry.download_url(),
        "https://github.com/k2-fsa/sherpa-onnx/releases/download/asr-models/sherpa-onnx-nemo-parakeet-tdt-0.6b-v2-int8.tar.bz2"
    );
    assert_eq!(
        entry.local_dir("/models"),
        "/models/parakeet-tdt-0.6b-v2-int8"
    );
    assert_eq!(VadModel::local_path("/models/"), "/models/silero_vad.onnx");
}

#[test]
fn tauri_model_paths_and_downloads() {
    let model = Model::ParakeetTdt(ParakeetTdtModel::V3);
    assert_eq!(
        model.local_path("/data/models"),
        "/data/models/sherpa-onnx-nemo-parakeet-tdt-0.6b-v3-int8"
    );
    assert!(model.is_downloaded(true, true));
    assert!(!model.is_downloaded(true, false));
    assert!(!model.is_downloaded(false, false));
}

#[test]
fn storage_info_sums_downloaded_sizes() {
    let mut sizes = vec![None; 12];
    sizes[0] = Some(100);
    sizes[11] = Some(23);
    let info = storage_info("/m".to_owned(), &sizes);
    assert_eq!(info.total_size, 123);
    assert_eq!(info.downloaded_count, 2);
    assert_eq!(info.available_count, 12);
    assert_eq!(info.models_dir, "/m");
}

#[test]
fn stored_names_round_trip_for_every_model() {
    for model in Model::all() {
        assert_eq!(
            model_from_names(model.engine_name(), Some(model.variant_id())),
            Ok(model)
        );
    }
    let model = Model::Whisper(WhisperModel::TinyEn);
    assert_eq!(model.engine_name(), "whisper");
    assert_eq!(model.variant_id(), "tiny-en");
}

#[test]
fn retired_parakeet_engine_reads_as_parakeet_tdt() {
    assert_eq!(
        model_from_names("parakeet", Some("v3")),
        Ok(Model::ParakeetTdt(ParakeetTdtModel::V3))
    );
    assert_eq!(
        model_from_names("parakeet", Some("v9")),
        Ok(Model::ParakeetTdt(ParakeetTdtModel::V2))
    );
    assert_eq!(
        model_from_names("parakeet", None),
        Ok(Model::ParakeetTdt(ParakeetTdtModel::V2))
    );
}

#[test]
fn unknown_stored_names_are_errors() {
    assert_eq!(
        model_from_names("vosk", Some("small")),
        Err(ModelNameError::UnknownEngine)
    );
    assert_eq!(
        model_from_names("whisper", Some("huge")),
        Err(ModelNameError::UnknownVariant)
    );
    assert_eq!(
        model_from_names("moonshine", None),
        Err(ModelNameError::UnknownVariant)
    );
}

#[test]
fn whisper_engine_reads_variant_named_int8_files_in_english() {
    let config = Model::Whisper(WhisperModel::SmallEn).engine_config("/models/whisper-small.en");
    assert_eq!(
        config,
        EngineConfig::Whisper {
            encoder: "/models/whisper-small.en/small.en-encoder.int8.onnx".to_string(),
            decoder: "/models/whisper-small.en/small.en-decoder.int8.onnx".to_string(),
            tokens: "/models/whisper-small.en/tokens.txt".to_string(),
            language: "en",
        }
    );
    let EngineConfig::Whisper { encoder, .. } =
        Model::Whisper(WhisperModel::Medium).engine_config("/m/")
    else {
        panic!("expected a Whisper configuration");
    };
    assert_eq!(encoder, "/m/medium-encoder.int8.onnx");
}

#[test]
fn moonshine_engine_reads_preprocessor_encoder_and_both_decoders() {
    let config = Model::Moonshine(MoonshineModel::BaseEn).engine_config("/m");
    assert_eq!(
        config,
        EngineConfig::Moonshine {
            preprocessor: "/m/preprocess.onnx".to_string(),
            encoder: "/m/encode.int8.onnx".to_string(),
            uncached_decoder: "/m/uncached_decode.int8.onnx".to_string(),
            cached_decoder: "/m/cached_decode.int8.onnx".to_string(),
            tokens: "/m/tokens.txt".to_string(),
        }
    );
}

#[test]
fn parakeet_engine_is_a_nemo_transducer_at_sixteen_kilohertz() {
    let config = Model::ParakeetTdt(ParakeetTdtModel::V3).engine_config("/m");
    assert_eq!(
        config,
        EngineConfig::Transducer {
            encoder: "/m/encoder.int8.onnx".to_string(),
            decoder: "/m/decoder.int8.onnx".to_string(),
            joiner: "/m/joiner.int8.onnx".to_string(),
            tokens: "/m/tokens.txt".to_string(),
            model_type: "nemo_transducer",
            sample_rate: 16_000,
            feature_dim: 80,
        }
    );
}

#[test]
fn model_path_picks_engine_by_directory_or_file() {
    assert_eq!(
        path_engine("/m/missing", false, false),
        Err("Model path not found: /m/missing".to_string())
    );
    assert_eq!(path_engine("/m/parakeet", true, true), Ok(PathEngine::Parakeet));
    assert_eq!(path_engine("/m/ggml.bin", true, false), Ok(PathEngine::Whisper));
}

#[test]
fn small_whisper_file_failure_reports_its_size() {
    assert_eq!(
        whisper_load_failure(4_096, "bad magic"),
        "Failed to load Whisper model (file may be corrupt, size: 4096 bytes): bad magic"
    );
    assert_eq!(
        whisper_load_failure(1_000_000, "bad magic"),
        "Failed to load Whisper model: bad magic"
    );
}

#[test]
fn engine_is_loaded_again_only_for_another_model() {
    let tiny = Model::Whisper(WhisperModel::TinyEn);
    let parakeet = Model::ParakeetTdt(ParakeetTdtModel::V2);
    assert!(needs_engine_load(None, tiny));
    assert!(!needs_engine_load(Some(tiny), tiny));
    assert!(needs_engine_load(Some(parakeet), tiny));
}

#[test]
fn transcription_needs_a_model_and_honours_placeholder_paths() {
    assert_eq!(transcribe_plan(false, Some("/m/ggml.bin")), Err("No model loaded"));
    assert_eq!(
        transcribe_plan(true, Some("placeholder:whisper")),
        Ok(TranscribePlan::Placeholder)
    );
    assert_eq!(transcribe_plan(true, Some("/m/placeholder:x")), Ok(TranscribePlan::Engine));
    assert_eq!(transcribe_plan(true, None), Ok(TranscribePlan::Engine));
}

#[test]
fn every_model_gets_its_own_path_and_every_catalog_id_its_own_directory() {
    let models = Model::all();
    for (i, a) in models.iter().enumerate() {
        for b in models.iter().skip(i + 1) {
            assert_ne!(a.local_path("/data/models"), b.local_path("/data/models"));
        }
    }
    let entries = ModelCatalogEntry::all();
    for (i, a) in entries.iter().enumerate() {
        assert_eq!(model_by_id(a.id().as_str()), Some(*a));
        for b in entries.iter().skip(i + 1) {
            assert_ne!(a.local_dir("/models"), b.local_dir("/models"));
        }
    }
    assert_eq!(model_by_id("not-a-model"), None);
    assert_eq!(model_by_id("whisper-base-en").unwrap().display_name(), "Whisper base.en");
}

#[test]
fn model_debug_name_matches_debug_formatting() {
    for model in Model::all() {
        assert_eq!(model.debug_name(), format!("{model:?}"));
    }
}

#[test]
fn engine_loads_only_from_a_downloaded_model() {
    let model = Model::Whisper(WhisperModel::TinyEn);
    assert_eq!(model.require_downloaded(true), Ok(()));
    assert_eq!(
        model.require_downloaded(false),
        Err("Model 'Whisper(TinyEn)' not downloaded. Please download it first.".to_string())
    );
}

#[test]
fn cached_model_sizes_stay_fresh_for_one_day() {
    let day = 86_400_000_000_000_u128;
    let at = Moment::from_nanos(1_000).unwrap();
    assert!(size_is_fresh(at, Moment::from_nanos(1_000).unwrap()));
    assert!(size_is_fresh(at, Moment::from_nanos(1_000 + day - 1).unwrap()));
    assert!(!size_is_fresh(at, Moment::from_nanos(1_000 + day).unwrap()));
    assert!(size_is_fresh(Moment::from_nanos(5_000).unwrap(), at));

    let now = Moment::from_nanos(1_000 + day).unwrap();
    let cached = vec![
        Some((42, Moment::from_nanos(2_000).unwrap())),
        Some((7, at)),
        None,
    ];
    assert_eq!(
        size_sources(&cached, now),
        vec![SizeSource::Cached(42), SizeSource::Fetch, SizeSource::Fetch]
    );
}

#[test]
fn unknown_model_error_lists_every_catalog_id() {
    let settings = Settings { model: "bogus-model".to_owned(), ..Settings::default() };
    let message = settings.model().unwrap_err();
    for entry in ModelCatalogEntry::all() {
        assert!(message.contains(entry.id().as_str()), "{message}");
    }
    assert!(message.contains("parakeet-tdt-0.6b-v2-int8"), "{message}");
}

#[test]
fn fetched_sizes_fill_the_map_and_the_cache_while_failures_keep_the_old_entry() {
    let day = 86_400_000_000_000_u128;
    let now = Moment::from_nanos(10 + day).unwrap();
    let fresh_at = Moment::from_nanos(20).unwrap();
    let stale_at = Moment::from_nanos(5).unwrap();
    let cached = vec![Some((42, fresh_at)), Some((7, stale_at)), None, Some((9, stale_at))];
    let fetched = vec![Some(1), Some(70), Some(30), None];
    let (sizes, cache) = sizes_after_fetch(&cached, &fetched, now);
    assert_eq!(sizes, vec![Some(42), Some(70), Some(30), None]);
    assert_eq!(
        cache,
        vec![Some((42, fresh_at)), Some((70, now)), Some((30, now)), Some((9, stale_at))]
    );
}

#[test]
fn engine_cache_loads_once_per_model_and_keeps_it_after_a_failed_load() {
    let tiny = Model::Whisper(WhisperModel::TinyEn);
    let parakeet = Model::ParakeetTdt(ParakeetTdtModel::V2);
    let mut cache: EngineCache<String> = EngineCache::new();
    let mut loads = 0;

    assert_eq!(cache.ensure_loaded(tiny, || { loads += 1; Ok::<_, String>("tiny".to_string()) }), Ok(()));
    assert_eq!(cache.ensure_loaded(tiny, || { loads += 1; Ok::<_, String>("again".to_string()) }), Ok(()));
    assert_eq!(loads, 1);
    assert_eq!(cache.model(), Some(tiny));
    assert_eq!(cache.engine(), Some(&"tiny".to_string()));

    assert_eq!(
        cache.ensure_loaded(parakeet, || Err::<String, _>("missing files".to_string())),
        Err("missing files".to_string())
    );
    assert_eq!(cache.model(), Some(tiny));
    assert_eq!(cache.engine(), Some(&"tiny".to_string()));

    assert_eq!(cache.ensure_loaded(parakeet, || Ok::<_, String>("parakeet".to_string())), Ok(()));
    assert_eq!(cache.model(), Some(parakeet));
}
