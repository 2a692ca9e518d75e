use detsys_ids_client::compression::{CompressionSet, ServerOptions};

fn server_options(zstd: bool) -> ServerOptions {
    ServerOptions {
        compression_algorithms: CompressionSet { zstd },
    }
}

#[test]
fn matching_no_diff() {
    let prev = server_options(false);
    let next = server_options(false);

    assert!(next.diff(&prev).is_empty())
}

#[test]
fn diff_sensible() {
    let prev = server_options(false);
    let next = server_options(true);

    assert_eq!(
        next.diff(&prev),
        vec![String::from(
            "Compression algorithms: CompressionSet { zstd: false } -> CompressionSet { zstd: true }"
        )]
    )
}
