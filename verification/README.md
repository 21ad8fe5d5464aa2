# wintermute-stt

Speech-to-text daemon for the wintermute voice assistant, with its logic
verified in Verus.

`wm-stt` takes PCM speech chunks from `wm-audio` over agorabus
(`wm.audio.speech.*`), turns them into text with a whisper.cpp model, and
publishes what it heard on `wm.stt.*`. A transcript whose confidence is below the
threshold is published as uncertain. `wm.stt.reload_model` changes the model; a
change that is asked for during an utterance waits until the utterance ends.

    wm-stt start [--models-root <dir>]
    wm-stt reload-model <name>

## Layout

- `src/` is the verified library: settings, topics and payloads, the engine
  trait and its stub, PCM decoding, the order of inference, the state machine of
  utterances, the course of the daemon on the bus, and the laws that hold of them.
- `app/` is the program around it: the environment, JSON, the connections to
  agorabus, and the calls into whisper.cpp.
- `tests/` holds the tests of the library.

## What is taken on trust

- `base64` decodes a text to bytes that depend on the text alone
  (`src/whisper_engine.rs`).
- The standard library's `String::push` appends a character, and the `Debug` form
  of a text depends on the text alone (`src/text.rs`).
- The system clock may read anything (`src/bus.rs`).

Numbers with fractions are held by their binary32 bit pattern
(`src/confidence.rs`), so that how they compare is proved; parsing them, scaling
samples and averaging probabilities are in `app/`.
