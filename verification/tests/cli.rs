use mega_fuse::cli::parse;
use mega_fuse::cli::CliError;
use mega_fuse::cli::Commands;

fn words(s: &str) -> Vec<String> {
    s.split_whitespace().map(|w| w.to_string()).collect()
}

#[test]
fn test_cli_parsing() {
    let input = "fuse --mount-point path/to/mount-point --cache-dir path/to/cache --log-dir path/to/log --mega-host mega.com --mega-port 8000 connect mega-fuse";
    let input: Vec<&str> = input.split_whitespace().collect();
    let args = parse(input.iter().map(|w| w.to_string()).collect()).unwrap();
    assert_eq!(args.mount_point.unwrap(), input[2]);
    assert_eq!(args.cache_dir.unwrap(), input[4]);
    assert_eq!(args.log_dir.unwrap(), input[6]);
    assert_eq!(args.mega_host.unwrap(), input[8]);
    assert_eq!(args.mega_port.unwrap().to_string(), input[10]);
    assert_eq!(
        args.command,
        Commands::Connect {
            target: input[12].to_string(),
        }
    );
}

#[test]
fn cli_disconnect_with_no_options() {
    let args = parse(words("fuse disconnect mega")).unwrap();
    assert_eq!(args.mount_point, None);
    assert_eq!(args.cache_dir, None);
    assert_eq!(args.log_dir, None);
    assert_eq!(args.mega_host, None);
    assert_eq!(args.mega_port, None);
    assert_eq!(
        args.command,
        Commands::Disconnect {
            target: "mega".to_string(),
        }
    );
}

#[test]
fn cli_missing_command() {
    assert_eq!(parse(words("fuse")), Err(CliError::MissingCommand));
    assert_eq!(
        parse(words("fuse --mount-point x")),
        Err(CliError::MissingCommand)
    );
}

#[test]
fn cli_missing_value() {
    assert_eq!(parse(words("fuse --mount-point")), Err(CliError::MissingValue));
    assert_eq!(parse(words("fuse --mega-port")), Err(CliError::MissingValue));
}

#[test]
fn cli_invalid_port() {
    assert_eq!(
        parse(words("fuse --mega-port abc connect mega")),
        Err(CliError::InvalidPort)
    );
    assert_eq!(
        parse(words("fuse --mega-port 65536 connect mega")),
        Err(CliError::InvalidPort)
    );
    let args = parse(words("fuse --mega-port 65535 connect mega")).unwrap();
    assert_eq!(args.mega_port, Some(65535));
}

#[test]
fn cli_missing_target() {
    assert_eq!(parse(words("fuse connect")), Err(CliError::MissingTarget));
}

#[test]
fn cli_unexpected_argument() {
    assert_eq!(
        parse(words("fuse connect mega extra")),
        Err(CliError::UnexpectedArgument)
    );
}

#[test]
fn cli_unknown_argument() {
    assert_eq!(parse(words("fuse frobnicate")), Err(CliError::UnknownArgument));
}
