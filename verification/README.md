# vod2pod_rss

Turns YouTube and Twitch channels (and PeerTube videos or plain podcast
feeds) into podcast feeds whose episodes are transcoded to MP3 on the fly.
The library also reads Rumble channel pages into a feed, though no URL is
handed to that provider.

- `src/` is the library, verified with Verus: settings, the choice of
  provider for a URL and the check of allowed addresses, the reading of
  channel pages and API answers, the making of feed items and channels,
  the answers to range requests, the ffmpeg command line and the
  decisions taken while a transcoded stream is sent.
- `app/` is the server around it: HTTP, Redis, yt-dlp and ffmpeg.
- `tests/` exercises the library.
