use file_crypt::cli::{DecryptArgs, EncryptArgs};
use file_crypt::error::{FileCryptError, IoOp};
use file_crypt::key_management::{generate_key, save_key_to_file};
use file_crypt::operations::{
    decrypt_file, decrypted_output_path, encrypt_file, encrypted_output_path, DEFAULT_KEY_PATH,
};
use file_crypt::request::{Reply, Request, Step};
use std::collections::HashMap;

type Files = HashMap<String, Vec<u8>>;

fn perform(files: &mut Files, request: Request) -> Reply {
    match request {
        Request::Read { path } => match files.get(&path) {
            Some(data) => Reply::Data(data.clone()),
            None => Reply::Failed,
        },
        Request::Write { path, data, .. } => {
            files.insert(path, data);
            Reply::Written
        }
    }
}

fn run_encrypt(files: &mut Files, args: EncryptArgs) -> Result<String, FileCryptError> {
    let (mut session, mut step) = encrypt_file(args);
    loop {
        match step {
            Step::Perform(request) => {
                let reply = perform(files, request);
                step = session.resume(reply);
            }
            Step::Done(path) => return Ok(path),
            Step::Error(e) => return Err(e),
        }
    }
}

fn run_decrypt(files: &mut Files, args: DecryptArgs) -> Result<String, FileCryptError> {
    let (mut session, mut step) = decrypt_file(args);
    loop {
        match step {
            Step::Perform(request) => {
                let reply = perform(files, request);
                step = session.resume(reply);
            }
            Step::Done(path) => return Ok(path),
            Step::Error(e) => return Err(e),
        }
    }
}

fn some(s: &str) -> Option<String> {
    Some(s.to_string())
}

#[test]
fn test_encrypt_and_decrypt() {
    let mut files = Files::new();
    let input_file = "tmp/input.txt";
    let encrypted_file = "tmp/input.txt.enc";
    let decrypted_file = "tmp/input_decrypted.txt";
    let key_file = "tmp/test.key";

    let input_data = b"Secret message to encrypt";

    // write input data to file
    files.insert(input_file.to_string(), input_data.to_vec());

    // a fresh key, saved to the key file
    let key = generate_key();
    let reply = perform(&mut files, save_key_to_file(&key, key_file));
    assert!(matches!(reply, Reply::Written));

    // encrypt the file
    let encrypt_args = EncryptArgs {
        input: input_file.to_string(),
        output: some(encrypted_file),
        key: some(key_file),
    };
    let out = run_encrypt(&mut files, encrypt_args).expect("Encryption failed");
    assert_eq!(out, encrypted_file);
    assert_eq!(files[encrypted_file].len(), 12 + input_data.len() + 16);

    // decrypt the file
    let decrypt_args = DecryptArgs {
        input: encrypted_file.to_string(),
        output: some(decrypted_file),
        key: some(key_file),
    };
    let out = run_decrypt(&mut files, decrypt_args).expect("Decryption failed");
    assert_eq!(out, decrypted_file);

    // verify the decrypted data matches the original
    let decrypted_data = files.get(decrypted_file).expect("Failed to read decrypted file");
    assert_eq!(
        input_data.to_vec(),
        *decrypted_data,
        "Decrypted data should match original input data"
    );
}

#[test]
fn encrypt_without_key_generates_and_saves_one() {
    let mut files = Files::new();
    files.insert("notes.txt".to_string(), b"hello".to_vec());
    let args = EncryptArgs { input: "notes.txt".to_string(), output: None, key: None };
    let (mut session, step) = encrypt_file(args);
    assert_eq!(session.new_key_path.as_deref(), Some(DEFAULT_KEY_PATH));
    match step {
        Step::Perform(Request::Write { path, data, create_parent }) => {
            assert_eq!(path, "keys/default.key");
            assert_eq!(data.len(), 32);
            assert!(create_parent);
            files.insert(path, data);
        }
        other => panic!("expected the key to be saved first: {:?}", other),
    }
    let mut step = session.resume(Reply::Written);
    let out = loop {
        match step {
            Step::Perform(request) => {
                let reply = perform(&mut files, request);
                step = session.resume(reply);
            }
            Step::Done(path) => break path,
            Step::Error(e) => panic!("{:?}", e),
        }
    };
    assert_eq!(out, "notes.txt.enc");

    // the saved key opens the envelope
    let args = DecryptArgs {
        input: "notes.txt.enc".to_string(),
        output: None,
        key: some("keys/default.key"),
    };
    assert_eq!(run_decrypt(&mut files, args).unwrap(), "notes.txt_decrypted");
    assert_eq!(files["notes.txt_decrypted"], b"hello".to_vec());
}

#[test]
fn decrypt_without_key_path_touches_no_file() {
    let args = DecryptArgs { input: "secret.enc".to_string(), output: None, key: None };
    let (_, step) = decrypt_file(args);
    assert!(matches!(step, Step::Error(FileCryptError::MissingKeyPath)));
}

#[test]
fn decrypt_of_short_file_is_malformed() {
    let mut files = Files::new();
    files.insert("k.key".to_string(), generate_key().to_vec());
    files.insert("short.enc".to_string(), vec![1u8; 11]);
    let args = DecryptArgs { input: "short.enc".to_string(), output: None, key: some("k.key") };
    assert!(matches!(run_decrypt(&mut files, args), Err(FileCryptError::MalformedEnvelope)));
}

#[test]
fn decrypt_with_other_key_fails_closed() {
    let mut files = Files::new();
    files.insert("a.key".to_string(), generate_key().to_vec());
    files.insert("b.key".to_string(), generate_key().to_vec());
    files.insert("msg".to_string(), b"attack at dawn".to_vec());
    let args = EncryptArgs { input: "msg".to_string(), output: None, key: some("a.key") };
    run_encrypt(&mut files, args).unwrap();
    let args = DecryptArgs { input: "msg.enc".to_string(), output: None, key: some("b.key") };
    assert!(matches!(run_decrypt(&mut files, args), Err(FileCryptError::DecryptionFailed)));
    assert!(!files.contains_key("msg_decrypted"));
}

#[test]
fn short_key_file_is_rejected_before_input_is_read() {
    let mut files = Files::new();
    files.insert("bad.key".to_string(), vec![0u8; 31]);
    let args = EncryptArgs { input: "absent".to_string(), output: None, key: some("bad.key") };
    match run_encrypt(&mut files, args) {
        Err(FileCryptError::InvalidKeySize { found }) => assert_eq!(found, 31),
        other => panic!("unexpected: {:?}", other),
    }
}

#[test]
fn unreadable_input_names_the_path() {
    let mut files = Files::new();
    files.insert("k.key".to_string(), generate_key().to_vec());
    let args = EncryptArgs { input: "nowhere.txt".to_string(), output: None, key: some("k.key") };
    match run_encrypt(&mut files, args) {
        Err(FileCryptError::Io { op, path }) => {
            assert_eq!(op, IoOp::Read);
            assert_eq!(path, "nowhere.txt");
        }
        other => panic!("unexpected: {:?}", other),
    }
}

#[test]
fn failed_output_write_names_the_path() {
    let mut files = Files::new();
    files.insert("k.key".to_string(), generate_key().to_vec());
    let args = EncryptArgs {
        input: "in.txt".to_string(),
        output: some("out/in.bin"),
        key: some("k.key"),
    };
    let (mut session, step) = encrypt_file(args);
    assert!(matches!(step, Step::Perform(Request::Read { .. })));
    let step = session.resume(Reply::Data(files["k.key"].clone()));
    assert!(matches!(step, Step::Perform(Request::Read { ref path }) if path == "in.txt"));
    let step = session.resume(Reply::Data(b"payload".to_vec()));
    match step {
        Step::Perform(Request::Write { path, data, create_parent }) => {
            assert_eq!(path, "out/in.bin");
            assert_eq!(data.len(), 12 + 7 + 16);
            assert!(create_parent);
        }
        other => panic!("unexpected: {:?}", other),
    }
    match session.resume(Reply::Failed) {
        Step::Error(FileCryptError::Io { op, path }) => {
            assert_eq!(op, IoOp::Write);
            assert_eq!(path, "out/in.bin");
        }
        other => panic!("unexpected: {:?}", other),
    }
}

#[test]
fn default_output_paths() {
    let e = EncryptArgs { input: "dir/report.pdf".to_string(), output: None, key: None };
    assert_eq!(encrypted_output_path(&e), "dir/report.pdf.enc");
    let e = EncryptArgs { input: "a".to_string(), output: some("b"), key: None };
    assert_eq!(encrypted_output_path(&e), "b");

    let d = DecryptArgs { input: "dir/report.pdf.enc".to_string(), output: None, key: None };
    assert_eq!(decrypted_output_path(&d), "report.pdf_decrypted");
    let d = DecryptArgs { input: "plain".to_string(), output: None, key: None };
    assert_eq!(decrypted_output_path(&d), "plain_decrypted");
    let d = DecryptArgs { input: "".to_string(), output: None, key: None };
    assert_eq!(decrypted_output_path(&d), "decrypted_output");
    let d = DecryptArgs { input: "x.enc".to_string(), output: some("y"), key: None };
    assert_eq!(decrypted_output_path(&d), "y");
}
