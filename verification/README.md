# hypha

Voice calls from peer to peer.

`src/` is the library, verified with Verus: the ring and the queue in which sound waits,
frames and packets, the buffers around the codecs, what is done each time an audio device
brings or wants samples, the choice of a device's configuration, keys and their texts, and
what the programs decide.

`app/` is the programs: the network, the devices, the terminal and the C libraries for
Opus, resampling and linear predictive coding. They work on floating-point samples, so the
library is generic in what a sample is, or takes its 32 bits.

`tests/` runs the library on concrete values.
