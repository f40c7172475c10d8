use tqc::model::CatalogError;
use tqc::numfmt::{u32_pad2, u64_dec};
use tqc::textout::{asset_url, episode_label, episodes_first_url, output_template, stream_url};

#[test]
fn decimal_zero() {
    assert_eq!(u64_dec(0), "0");
}

#[test]
fn decimal_single_digit() {
    assert_eq!(u64_dec(7), "7");
}

#[test]
fn decimal_many_digits() {
    assert_eq!(u64_dec(1234567890), "1234567890");
    assert_eq!(u64_dec(u64::MAX), "18446744073709551615");
}

#[test]
fn padded_two_digits() {
    assert_eq!(u32_pad2(0), "00");
    assert_eq!(u32_pad2(5), "05");
    assert_eq!(u32_pad2(12), "12");
    assert_eq!(u32_pad2(123), "123");
}

#[test]
fn asset_url_for_slug() {
    assert_eq!(
        asset_url("32951-simon"),
        "https://beacon.playback.api.brightcove.com/telequebec/api/assets/32951-simon?device_type=web&device_layout=web"
    );
}

#[test]
fn first_episodes_page_url() {
    assert_eq!(
        episodes_first_url(7, 8),
        "https://beacon.playback.api.brightcove.com/telequebec/api/tvshow/7/season/8/episodes?device_type=web&device_layout=web&layout_id=320"
    );
}

#[test]
fn stream_url_for_episode() {
    assert_eq!(stream_url(9001), "https://video.telequebec.tv/player/9001/stream");
}

#[test]
fn output_template_embeds_label() {
    assert_eq!(
        output_template("Simon", 1, 2, "Two"),
        "Simon - S01E02 - Two.%(ext)s"
    );
}

#[test]
fn episode_label_padding() {
    assert_eq!(episode_label(1, 1, "Pilot"), "S01E01 - Pilot");
    assert_eq!(episode_label(12, 103, "Finale"), "S12E103 - Finale");
}

#[test]
fn error_messages() {
    assert_eq!(CatalogError::TransportError.message(), "Transport error");
    assert_eq!(CatalogError::NotFound.message(), "Show not found");
    assert_eq!(CatalogError::SeasonNotFound(9).message(), "Season 9 not found");
    assert_eq!(
        CatalogError::EpisodeNotFound(2, 3).message(),
        "Episode 2 not found in season 3"
    );
}
